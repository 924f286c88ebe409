use vstd::prelude::*;
use crate::account_key::AccountKey;
use crate::error::ErrorCode;

verus! {

/// The setup of a stablecoin issued against collateral, with running totals
/// of what all positions have issued and deposited.
#[derive(Clone, Copy, Debug, PartialEq, Eq)]
pub struct StablecoinConfig {
    pub authority: AccountKey,
    pub stablecoin_mint: AccountKey,
    pub collateral_mint: AccountKey,
    /// Target collateral, in percent of the issued amount.
    pub collateral_ratio: u16,
    /// Collateral level, in percent, below which a position may be liquidated.
    pub liquidation_threshold: u16,
    pub total_supply: u64,
    pub total_collateral: u64,
    pub is_active: bool,
}

impl StablecoinConfig {
    /// Bytes that the stored record takes.
    pub const SIZE: usize = 32 + 32 + 32 + 2 + 2 + 8 + 8 + 1;
}

/// One owner's position against a configuration.
#[derive(Clone, Copy, Debug, PartialEq, Eq)]
pub struct Position {
    pub owner: AccountKey,
    pub collateral_amount: u64,
    pub minted_amount: u64,
    /// Unix time at which the position was opened.
    pub created_at: i64,
    pub is_liquidated: bool,
}

impl Position {
    /// Bytes that the stored record takes.
    pub const SIZE: usize = 32 + 8 + 8 + 8 + 1;
}

/// The accounts presented to set up a configuration.
#[derive(Clone, Copy, Debug, PartialEq, Eq)]
pub struct InitializeStablecoinConfig {
    pub authority: AccountKey,
    pub stablecoin_mint: AccountKey,
    pub collateral_mint: AccountKey,
}

/// The signer that opens a position.
#[derive(Clone, Copy, Debug, PartialEq, Eq)]
pub struct OpenPosition {
    pub user: AccountKey,
}

/// A fresh, active configuration with no positions yet.
pub fn initialize_stablecoin_config(
    ctx: &InitializeStablecoinConfig,
    collateral_ratio: u16,
    liquidation_threshold: u16,
) -> (r: StablecoinConfig)
    ensures
        r == (StablecoinConfig {
            authority: ctx.authority,
            stablecoin_mint: ctx.stablecoin_mint,
            collateral_mint: ctx.collateral_mint,
            collateral_ratio,
            liquidation_threshold,
            total_supply: 0,
            total_collateral: 0,
            is_active: true,
        }),
{
    StablecoinConfig {
        authority: ctx.authority,
        stablecoin_mint: ctx.stablecoin_mint,
        collateral_mint: ctx.collateral_mint,
        collateral_ratio,
        liquidation_threshold,
        total_supply: 0,
        total_collateral: 0,
        is_active: true,
    }
}

/// Opening a position: the configuration must be active and the issued
/// amount positive, and both running totals must stay within `u64`. The
/// collateral is not compared with the collateral ratio.
pub open spec fn open_position_outcome(
    c: StablecoinConfig,
    collateral_amount: u64,
    mint_amount: u64,
) -> Result<StablecoinConfig, ErrorCode> {
    if !c.is_active {
        Err(ErrorCode::ProgramPaused)
    } else if mint_amount == 0 {
        Err(ErrorCode::InvalidAmount)
    } else if c.total_supply + mint_amount > u64::MAX {
        Err(ErrorCode::Overflow)
    } else if c.total_collateral + collateral_amount > u64::MAX {
        Err(ErrorCode::Overflow)
    } else {
        Ok(
            StablecoinConfig {
                total_supply: (c.total_supply + mint_amount) as u64,
                total_collateral: (c.total_collateral + collateral_amount) as u64,
                ..c
            },
        )
    }
}

/// Opens a position for `ctx.user` at time `created_at`, recording the
/// stated amounts as given and adding them to the configuration's totals.
/// No collateral is moved and no collateral ratio is enforced here.
pub fn open_position(
    config: &mut StablecoinConfig,
    ctx: &OpenPosition,
    collateral_amount: u64,
    mint_amount: u64,
    created_at: i64,
) -> (r: Result<Position, ErrorCode>)
    ensures
        open_position_outcome(*old(config), collateral_amount, mint_amount) is Ok ==> {
            &&& *final(config) == open_position_outcome(
                *old(config),
                collateral_amount,
                mint_amount,
            )->Ok_0
            &&& r == Ok::<Position, ErrorCode>(
                Position {
                    owner: ctx.user,
                    collateral_amount,
                    minted_amount: mint_amount,
                    created_at,
                    is_liquidated: false,
                },
            )
        },
        open_position_outcome(*old(config), collateral_amount, mint_amount) is Err ==> {
            &&& *final(config) == *old(config)
            &&& r == Err::<Position, ErrorCode>(
                open_position_outcome(*old(config), collateral_amount, mint_amount)->Err_0,
            )
        },
{
    if !config.is_active {
        return Err(ErrorCode::ProgramPaused);
    }
    if mint_amount == 0 {
        return Err(ErrorCode::InvalidAmount);
    }
    let new_supply = match config.total_supply.checked_add(mint_amount) {
        Some(v) => v,
        None => {
            return Err(ErrorCode::Overflow);
        },
    };
    let new_collateral = match config.total_collateral.checked_add(collateral_amount) {
        Some(v) => v,
        None => {
            return Err(ErrorCode::Overflow);
        },
    };
    config.total_supply = new_supply;
    config.total_collateral = new_collateral;
    Ok(
        Position {
            owner: ctx.user,
            collateral_amount,
            minted_amount: mint_amount,
            created_at,
            is_liquidated: false,
        },
    )
}

} // verus!
