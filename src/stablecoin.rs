use vstd::prelude::*;
use crate::account_key::AccountKey;
use crate::error::SSSOneError;
use crate::events::{
    AccountFrozen, AccountThawed, AuthorityTransferred, BurnerUpdated, MinterUpdated,
    PauserUpdated, ProgramPaused, ProgramUnpaused, StablecoinInitialized, TokensBurned,
    TokensMinted,
};
use crate::instructions::{
    AuthorityManagement, BurnOperation, FreezeThaw, Initialize, MintOperation, PauseManagement,
};
use crate::state::{StablecoinConfig, MAX_NAME_LEN, MAX_SYMBOL_LEN, MAX_URI_LEN};

verus! {

/// An operation left the record as `outcome` says: on success the record
/// becomes the new one, on failure it is unchanged and the error is returned.
pub open spec fn commits<T>(
    outcome: Result<StablecoinConfig, SSSOneError>,
    before: StablecoinConfig,
    after: StablecoinConfig,
    r: Result<T, SSSOneError>,
) -> bool {
    match outcome {
        Ok(next) => after == next && r is Ok,
        Err(e) => after == before && r == Err::<T, SSSOneError>(e),
    }
}

/// Setting up a record: once only, with metadata within its limits. The
/// authority becomes minter, burner and pauser as well.
pub open spec fn initialize_outcome(
    c: StablecoinConfig,
    ctx: Initialize,
    name: String,
    symbol: String,
    uri: String,
    decimals: u8,
) -> Result<StablecoinConfig, SSSOneError> {
    if c.initialized {
        Err(SSSOneError::AlreadyInitialized)
    } else if name@.len() > MAX_NAME_LEN {
        Err(SSSOneError::NameTooLong)
    } else if symbol@.len() > MAX_SYMBOL_LEN {
        Err(SSSOneError::SymbolTooLong)
    } else if uri@.len() > MAX_URI_LEN {
        Err(SSSOneError::URITooLong)
    } else {
        Ok(
            StablecoinConfig {
                name,
                symbol,
                uri,
                decimals,
                mint: ctx.mint,
                authority: ctx.authority,
                minter: ctx.authority,
                burner: ctx.authority,
                pauser: ctx.authority,
                is_paused: false,
                initialized: true,
                total_supply: 0,
            },
        )
    }
}

/// Issuing `amount`: the record must be initialized and active, the caller
/// its minter, and the new supply must fit in a `u64`.
pub open spec fn mint_outcome(c: StablecoinConfig, minter: AccountKey, amount: u64) -> Result<
    StablecoinConfig,
    SSSOneError,
> {
    if !c.initialized {
        Err(SSSOneError::NotInitialized)
    } else if c.is_paused {
        Err(SSSOneError::ProgramPaused)
    } else if minter != c.minter {
        Err(SSSOneError::UnauthorizedMinter)
    } else if c.total_supply + amount > u64::MAX {
        Err(SSSOneError::Overflow)
    } else {
        Ok(StablecoinConfig { total_supply: (c.total_supply + amount) as u64, ..c })
    }
}

/// Destroying `amount`: the record must be initialized and active, the
/// caller its burner, and the supply must not go below zero.
pub open spec fn burn_outcome(c: StablecoinConfig, burner: AccountKey, amount: u64) -> Result<
    StablecoinConfig,
    SSSOneError,
> {
    if !c.initialized {
        Err(SSSOneError::NotInitialized)
    } else if c.is_paused {
        Err(SSSOneError::ProgramPaused)
    } else if burner != c.burner {
        Err(SSSOneError::UnauthorizedBurner)
    } else if amount > c.total_supply {
        Err(SSSOneError::Underflow)
    } else {
        Ok(StablecoinConfig { total_supply: (c.total_supply - amount) as u64, ..c })
    }
}

/// Freezing or thawing a token account: only while the record is active.
/// The record itself does not change.
pub open spec fn freeze_thaw_outcome(c: StablecoinConfig) -> Result<StablecoinConfig, SSSOneError> {
    if c.is_paused {
        Err(SSSOneError::ProgramPaused)
    } else {
        Ok(c)
    }
}

/// Pausing: by the pauser, from the active state.
pub open spec fn pause_outcome(c: StablecoinConfig, pauser: AccountKey) -> Result<
    StablecoinConfig,
    SSSOneError,
> {
    if pauser != c.pauser {
        Err(SSSOneError::UnauthorizedPauser)
    } else if c.is_paused {
        Err(SSSOneError::AlreadyPaused)
    } else {
        Ok(StablecoinConfig { is_paused: true, ..c })
    }
}

/// Resuming: by the pauser, from the paused state.
pub open spec fn unpause_outcome(c: StablecoinConfig, pauser: AccountKey) -> Result<
    StablecoinConfig,
    SSSOneError,
> {
    if pauser != c.pauser {
        Err(SSSOneError::UnauthorizedPauser)
    } else if !c.is_paused {
        Err(SSSOneError::NotPaused)
    } else {
        Ok(StablecoinConfig { is_paused: false, ..c })
    }
}

/// The role that a role change replaces.
#[derive(Clone, Copy, Debug, PartialEq, Eq, Structural)]
pub enum Role {
    Authority,
    Minter,
    Burner,
    Pauser,
}

/// The account that holds `role` in `c`.
pub open spec fn role_holder(c: StablecoinConfig, role: Role) -> AccountKey {
    match role {
        Role::Authority => c.authority,
        Role::Minter => c.minter,
        Role::Burner => c.burner,
        Role::Pauser => c.pauser,
    }
}

/// The error that refuses a caller who does not hold `role`.
pub open spec fn unauthorized(role: Role) -> SSSOneError {
    match role {
        Role::Authority => SSSOneError::UnauthorizedAuthority,
        Role::Minter => SSSOneError::UnauthorizedMinter,
        Role::Burner => SSSOneError::UnauthorizedBurner,
        Role::Pauser => SSSOneError::UnauthorizedPauser,
    }
}

/// Succeeds exactly when `caller` holds `role` in `config`; fails closed
/// with the role's authorization error otherwise.
pub fn authorize(config: &StablecoinConfig, role: Role, caller: &AccountKey) -> (r: Result<
    (),
    SSSOneError,
>)
    ensures
        r is Ok <==> *caller == role_holder(*config, role),
        r is Err ==> r->Err_0 == unauthorized(role),
{
    let holder = match role {
        Role::Authority => &config.authority,
        Role::Minter => &config.minter,
        Role::Burner => &config.burner,
        Role::Pauser => &config.pauser,
    };
    if *caller == *holder {
        Ok(())
    } else {
        Err(
            match role {
                Role::Authority => SSSOneError::UnauthorizedAuthority,
                Role::Minter => SSSOneError::UnauthorizedMinter,
                Role::Burner => SSSOneError::UnauthorizedBurner,
                Role::Pauser => SSSOneError::UnauthorizedPauser,
            },
        )
    }
}

/// `c` with the holder of `role` replaced by `holder`.
pub open spec fn with_role(c: StablecoinConfig, role: Role, holder: AccountKey) -> StablecoinConfig {
    match role {
        Role::Authority => StablecoinConfig { authority: holder, ..c },
        Role::Minter => StablecoinConfig { minter: holder, ..c },
        Role::Burner => StablecoinConfig { burner: holder, ..c },
        Role::Pauser => StablecoinConfig { pauser: holder, ..c },
    }
}

/// Replacing a role holder: by the current authority only, in any state,
/// at once.
pub open spec fn set_role_outcome(
    c: StablecoinConfig,
    caller: AccountKey,
    role: Role,
    holder: AccountKey,
) -> Result<StablecoinConfig, SSSOneError> {
    if caller != c.authority {
        Err(SSSOneError::UnauthorizedAuthority)
    } else {
        Ok(with_role(c, role, holder))
    }
}

/// Sets up `config` for the token type `ctx.mint`, with `ctx.authority` in
/// every role. The token ledger is then asked to create the token type with
/// this configuration's mint authority as mint and freeze authority.
pub fn initialize(
    config: &mut StablecoinConfig,
    ctx: &Initialize,
    name: String,
    symbol: String,
    uri: String,
    decimals: u8,
) -> (r: Result<StablecoinInitialized, SSSOneError>)
    ensures
        commits(
            initialize_outcome(*old(config), *ctx, name, symbol, uri, decimals),
            *old(config),
            *final(config),
            r,
        ),
        r is Ok ==> r->Ok_0 == (StablecoinInitialized {
            name,
            symbol,
            decimals,
            mint: ctx.mint,
            authority: ctx.authority,
        }),
        old(config).wf() ==> final(config).wf(),
{
    if config.initialized {
        return Err(SSSOneError::AlreadyInitialized);
    }
    if name.as_str().unicode_len() > MAX_NAME_LEN {
        return Err(SSSOneError::NameTooLong);
    }
    if symbol.as_str().unicode_len() > MAX_SYMBOL_LEN {
        return Err(SSSOneError::SymbolTooLong);
    }
    if uri.as_str().unicode_len() > MAX_URI_LEN {
        return Err(SSSOneError::URITooLong);
    }
    let event = StablecoinInitialized {
        name: name.clone(),
        symbol: symbol.clone(),
        decimals,
        mint: ctx.mint,
        authority: ctx.authority,
    };
    *config = StablecoinConfig {
        name,
        symbol,
        uri,
        decimals,
        mint: ctx.mint,
        authority: ctx.authority,
        minter: ctx.authority,
        burner: ctx.authority,
        pauser: ctx.authority,
        is_paused: false,
        initialized: true,
        total_supply: 0,
    };
    Ok(event)
}

/// Records the issue of `amount` tokens to `ctx.recipient`. The token ledger
/// performs the issue in the same transaction, which commits only if this
/// returns `Ok`.
pub fn mint(config: &mut StablecoinConfig, ctx: &MintOperation, amount: u64) -> (r: Result<
    TokensMinted,
    SSSOneError,
>)
    ensures
        commits(mint_outcome(*old(config), ctx.minter, amount), *old(config), *final(config), r),
        r is Ok ==> r->Ok_0 == (TokensMinted {
            recipient: ctx.recipient,
            amount,
            new_supply: final(config).total_supply,
        }),
        old(config).wf() ==> final(config).wf(),
{
    if !config.initialized {
        return Err(SSSOneError::NotInitialized);
    }
    if config.is_paused {
        return Err(SSSOneError::ProgramPaused);
    }
    if let Err(e) = authorize(config, Role::Minter, &ctx.minter) {
        return Err(e);
    }
    let new_supply = match config.total_supply.checked_add(amount) {
        Some(v) => v,
        None => {
            return Err(SSSOneError::Overflow);
        },
    };
    config.total_supply = new_supply;
    Ok(TokensMinted { recipient: ctx.recipient, amount, new_supply })
}

/// Records the destruction of `amount` tokens from `ctx.token_account`. The
/// token ledger performs the burn in the same transaction, which commits
/// only if this returns `Ok`.
pub fn burn(config: &mut StablecoinConfig, ctx: &BurnOperation, amount: u64) -> (r: Result<
    TokensBurned,
    SSSOneError,
>)
    ensures
        commits(burn_outcome(*old(config), ctx.burner, amount), *old(config), *final(config), r),
        r is Ok ==> r->Ok_0 == (TokensBurned {
            from: ctx.token_account,
            amount,
            new_supply: final(config).total_supply,
        }),
        old(config).wf() ==> final(config).wf(),
{
    if !config.initialized {
        return Err(SSSOneError::NotInitialized);
    }
    if config.is_paused {
        return Err(SSSOneError::ProgramPaused);
    }
    if let Err(e) = authorize(config, Role::Burner, &ctx.burner) {
        return Err(e);
    }
    let new_supply = match config.total_supply.checked_sub(amount) {
        Some(v) => v,
        None => {
            return Err(SSSOneError::Underflow);
        },
    };
    config.total_supply = new_supply;
    Ok(TokensBurned { from: ctx.token_account, amount, new_supply })
}

/// Replaces the minter.
pub fn set_minter(config: &mut StablecoinConfig, ctx: &AuthorityManagement, new_minter: AccountKey) -> (r: Result<MinterUpdated, SSSOneError>)
    ensures
        commits(
            set_role_outcome(*old(config), ctx.authority, Role::Minter, new_minter),
            *old(config),
            *final(config),
            r,
        ),
        r is Ok ==> r->Ok_0 == (MinterUpdated { new_minter }),
        old(config).wf() ==> final(config).wf(),
{
    if let Err(e) = authorize(config, Role::Authority, &ctx.authority) {
        return Err(e);
    }
    config.minter = new_minter;
    Ok(MinterUpdated { new_minter })
}

/// Replaces the burner.
pub fn set_burner(config: &mut StablecoinConfig, ctx: &AuthorityManagement, new_burner: AccountKey) -> (r: Result<BurnerUpdated, SSSOneError>)
    ensures
        commits(
            set_role_outcome(*old(config), ctx.authority, Role::Burner, new_burner),
            *old(config),
            *final(config),
            r,
        ),
        r is Ok ==> r->Ok_0 == (BurnerUpdated { new_burner }),
        old(config).wf() ==> final(config).wf(),
{
    if let Err(e) = authorize(config, Role::Authority, &ctx.authority) {
        return Err(e);
    }
    config.burner = new_burner;
    Ok(BurnerUpdated { new_burner })
}

/// Replaces the pauser.
pub fn set_pauser(config: &mut StablecoinConfig, ctx: &AuthorityManagement, new_pauser: AccountKey) -> (r: Result<PauserUpdated, SSSOneError>)
    ensures
        commits(
            set_role_outcome(*old(config), ctx.authority, Role::Pauser, new_pauser),
            *old(config),
            *final(config),
            r,
        ),
        r is Ok ==> r->Ok_0 == (PauserUpdated { new_pauser }),
        old(config).wf() ==> final(config).wf(),
{
    if let Err(e) = authorize(config, Role::Authority, &ctx.authority) {
        return Err(e);
    }
    config.pauser = new_pauser;
    Ok(PauserUpdated { new_pauser })
}

/// Hands the master authority to `new_authority`, in one step.
pub fn transfer_authority(
    config: &mut StablecoinConfig,
    ctx: &AuthorityManagement,
    new_authority: AccountKey,
) -> (r: Result<AuthorityTransferred, SSSOneError>)
    ensures
        commits(
            set_role_outcome(*old(config), ctx.authority, Role::Authority, new_authority),
            *old(config),
            *final(config),
            r,
        ),
        r is Ok ==> r->Ok_0 == (AuthorityTransferred { new_authority }),
        old(config).wf() ==> final(config).wf(),
{
    if let Err(e) = authorize(config, Role::Authority, &ctx.authority) {
        return Err(e);
    }
    config.authority = new_authority;
    Ok(AuthorityTransferred { new_authority })
}

/// Checks that `ctx.token_account` may be frozen now. The token ledger
/// performs the freeze in the same transaction and checks the freezer
/// against its freeze authority.
pub fn freeze_account(config: &StablecoinConfig, ctx: &FreezeThaw) -> (r: Result<AccountFrozen, SSSOneError>)
    ensures
        commits(freeze_thaw_outcome(*config), *config, *config, r),
        r is Ok ==> r->Ok_0 == (AccountFrozen { account: ctx.token_account }),
{
    if config.is_paused {
        return Err(SSSOneError::ProgramPaused);
    }
    Ok(AccountFrozen { account: ctx.token_account })
}

/// Checks that `ctx.token_account` may be thawed now. The token ledger
/// performs the thaw in the same transaction and checks the freezer
/// against its freeze authority.
pub fn thaw_account(config: &StablecoinConfig, ctx: &FreezeThaw) -> (r: Result<AccountThawed, SSSOneError>)
    ensures
        commits(freeze_thaw_outcome(*config), *config, *config, r),
        r is Ok ==> r->Ok_0 == (AccountThawed { account: ctx.token_account }),
{
    if config.is_paused {
        return Err(SSSOneError::ProgramPaused);
    }
    Ok(AccountThawed { account: ctx.token_account })
}

/// Pauses every issue, burn, freeze and thaw.
pub fn pause(config: &mut StablecoinConfig, ctx: &PauseManagement) -> (r: Result<ProgramPaused, SSSOneError>)
    ensures
        commits(pause_outcome(*old(config), ctx.pauser), *old(config), *final(config), r),
        r is Ok ==> r->Ok_0 == (ProgramPaused { authority: ctx.pauser }),
        old(config).wf() ==> final(config).wf(),
{
    if let Err(e) = authorize(config, Role::Pauser, &ctx.pauser) {
        return Err(e);
    }
    if config.is_paused {
        return Err(SSSOneError::AlreadyPaused);
    }
    config.is_paused = true;
    Ok(ProgramPaused { authority: ctx.pauser })
}

/// Resumes a paused record.
pub fn unpause(config: &mut StablecoinConfig, ctx: &PauseManagement) -> (r: Result<ProgramUnpaused, SSSOneError>)
    ensures
        commits(unpause_outcome(*old(config), ctx.pauser), *old(config), *final(config), r),
        r is Ok ==> r->Ok_0 == (ProgramUnpaused { authority: ctx.pauser }),
        old(config).wf() ==> final(config).wf(),
{
    if let Err(e) = authorize(config, Role::Pauser, &ctx.pauser) {
        return Err(e);
    }
    if !config.is_paused {
        return Err(SSSOneError::NotPaused);
    }
    config.is_paused = false;
    Ok(ProgramUnpaused { authority: ctx.pauser })
}

} // verus!
