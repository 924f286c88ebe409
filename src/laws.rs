use vstd::prelude::*;
use crate::account_key::AccountKey;
use crate::error::SSSOneError;
use crate::stablecoin::{
    burn_outcome, freeze_thaw_outcome, mint_outcome, pause_outcome, set_role_outcome,
    unpause_outcome, with_role, Role,
};
use crate::state::StablecoinConfig;

verus! {

/// One issue or burn call on a record, with the signer presented.
#[derive(Clone, Copy, Debug, PartialEq, Eq)]
pub enum SupplyCall {
    Mint { minter: AccountKey, amount: u64 },
    Burn { burner: AccountKey, amount: u64 },
}

/// What one supply call does to a record.
pub open spec fn supply_call_outcome(c: StablecoinConfig, call: SupplyCall) -> Result<
    StablecoinConfig,
    SSSOneError,
> {
    match call {
        SupplyCall::Mint { minter, amount } => mint_outcome(c, minter, amount),
        SupplyCall::Burn { burner, amount } => burn_outcome(c, burner, amount),
    }
}

/// The record after `calls` in order, or `None` where one of them fails.
pub open spec fn run_supply_calls(c: StablecoinConfig, calls: Seq<SupplyCall>) -> Option<
    StablecoinConfig,
>
    decreases calls.len(),
{
    if calls.len() == 0 {
        Some(c)
    } else {
        match run_supply_calls(c, calls.drop_last()) {
            Some(p) => match supply_call_outcome(p, calls.last()) {
                Ok(n) => Some(n),
                Err(_) => None,
            },
            None => None,
        }
    }
}

/// The sum of the amounts issued by `calls`.
pub open spec fn minted_sum(calls: Seq<SupplyCall>) -> int
    decreases calls.len(),
{
    if calls.len() == 0 {
        0
    } else {
        minted_sum(calls.drop_last()) + match calls.last() {
            SupplyCall::Mint { amount, .. } => amount as int,
            SupplyCall::Burn { .. } => 0,
        }
    }
}

/// The sum of the amounts burned by `calls`.
pub open spec fn burned_sum(calls: Seq<SupplyCall>) -> int
    decreases calls.len(),
{
    if calls.len() == 0 {
        0
    } else {
        burned_sum(calls.drop_last()) + match calls.last() {
            SupplyCall::Mint { .. } => 0,
            SupplyCall::Burn { amount, .. } => amount as int,
        }
    }
}

/// Supply conservation: after any sequence of successful issue and burn
/// calls on one record, the supply is the starting supply plus everything
/// issued minus everything burned, and that sum neither goes below zero nor
/// past `u64::MAX`. Every prefix of such a sequence is one too.
pub proof fn lemma_supply_conservation(c: StablecoinConfig, calls: Seq<SupplyCall>)
    requires
        run_supply_calls(c, calls) is Some,
    ensures
        run_supply_calls(c, calls)->Some_0.total_supply == c.total_supply + minted_sum(calls)
            - burned_sum(calls),
        0 <= c.total_supply + minted_sum(calls) - burned_sum(calls) <= u64::MAX,
    decreases calls.len(),
{
    if calls.len() > 0 {
        lemma_supply_conservation(c, calls.drop_last());
    }
}

/// While a record is paused, issue, burn, freeze and thaw all fail with a
/// lifecycle error, whoever calls them.
pub proof fn lemma_paused_blocks_ledger_operations(
    c: StablecoinConfig,
    caller: AccountKey,
    amount: u64,
)
    requires
        c.is_paused,
    ensures
        mint_outcome(c, caller, amount) is Err,
        mint_outcome(c, caller, amount)->Err_0.is_lifecycle(),
        burn_outcome(c, caller, amount) is Err,
        burn_outcome(c, caller, amount)->Err_0.is_lifecycle(),
        freeze_thaw_outcome(c) is Err,
        freeze_thaw_outcome(c)->Err_0.is_lifecycle(),
{
}

/// Only the current minter can issue. A successful issue was made by the
/// stored minter; on an initialized, active record every other caller, the
/// authority included, is refused with an authorization error.
pub proof fn lemma_only_minter_mints(c: StablecoinConfig, caller: AccountKey, amount: u64)
    ensures
        mint_outcome(c, caller, amount) is Ok ==> caller == c.minter,
        c.initialized && !c.is_paused && caller != c.minter ==> mint_outcome(c, caller, amount)
            == Err::<StablecoinConfig, SSSOneError>(SSSOneError::UnauthorizedMinter),
        c.initialized && !c.is_paused && caller != c.minter ==> mint_outcome(
            c,
            caller,
            amount,
        )->Err_0.is_authorization(),
{
}

/// Pausing twice in a row: the second call by the same pauser fails with
/// `AlreadyPaused`.
pub proof fn lemma_pause_twice(c: StablecoinConfig, pauser: AccountKey)
    requires
        pause_outcome(c, pauser) is Ok,
    ensures
        pause_outcome(pause_outcome(c, pauser)->Ok_0, pauser) == Err::<
            StablecoinConfig,
            SSSOneError,
        >(SSSOneError::AlreadyPaused),
{
}

/// Resuming a record that is not paused fails with `NotPaused`, also when
/// the pauser asks.
pub proof fn lemma_unpause_when_active(c: StablecoinConfig, pauser: AccountKey)
    requires
        !c.is_paused,
        pauser == c.pauser,
    ensures
        unpause_outcome(c, pauser) == Err::<StablecoinConfig, SSSOneError>(
            SSSOneError::NotPaused,
        ),
{
}

/// Handing over the authority takes effect at once: afterwards the former
/// authority can no longer replace the minter, and the new one can.
pub proof fn lemma_authority_handoff(
    c: StablecoinConfig,
    former: AccountKey,
    successor: AccountKey,
    new_minter: AccountKey,
)
    requires
        former == c.authority,
        former != successor,
    ensures
        set_role_outcome(c, former, Role::Authority, successor) is Ok,
        set_role_outcome(
            set_role_outcome(c, former, Role::Authority, successor)->Ok_0,
            former,
            Role::Minter,
            new_minter,
        ) == Err::<StablecoinConfig, SSSOneError>(SSSOneError::UnauthorizedAuthority),
        set_role_outcome(
            set_role_outcome(c, former, Role::Authority, successor)->Ok_0,
            successor,
            Role::Minter,
            new_minter,
        ) is Ok,
        set_role_outcome(
            set_role_outcome(c, former, Role::Authority, successor)->Ok_0,
            successor,
            Role::Minter,
            new_minter,
        )->Ok_0 == with_role(with_role(c, Role::Authority, successor), Role::Minter, new_minter),
{
}

} // verus!
