use vstd::prelude::*;
use crate::account_key::AccountKey;

verus! {

/// A stablecoin configuration was set up.
#[derive(Clone, Debug, PartialEq, Eq)]
pub struct StablecoinInitialized {
    pub name: String,
    pub symbol: String,
    pub decimals: u8,
    pub mint: AccountKey,
    pub authority: AccountKey,
}

/// Tokens were issued to `recipient`; `new_supply` is the total afterwards.
#[derive(Clone, Copy, Debug, PartialEq, Eq)]
pub struct TokensMinted {
    pub recipient: AccountKey,
    pub amount: u64,
    pub new_supply: u64,
}

#[derive(Clone, Copy, Debug, PartialEq, Eq)]
pub struct MinterUpdated {
    pub new_minter: AccountKey,
}

/// Tokens were destroyed from the token account `from`; `new_supply` is the total afterwards.
#[derive(Clone, Copy, Debug, PartialEq, Eq)]
pub struct TokensBurned {
    pub from: AccountKey,
    pub amount: u64,
    pub new_supply: u64,
}

#[derive(Clone, Copy, Debug, PartialEq, Eq)]
pub struct BurnerUpdated {
    pub new_burner: AccountKey,
}

#[derive(Clone, Copy, Debug, PartialEq, Eq)]
pub struct AccountFrozen {
    pub account: AccountKey,
}

#[derive(Clone, Copy, Debug, PartialEq, Eq)]
pub struct AccountThawed {
    pub account: AccountKey,
}

/// `authority` is the pauser that paused the configuration.
#[derive(Clone, Copy, Debug, PartialEq, Eq)]
pub struct ProgramPaused {
    pub authority: AccountKey,
}

/// `authority` is the pauser that resumed the configuration.
#[derive(Clone, Copy, Debug, PartialEq, Eq)]
pub struct ProgramUnpaused {
    pub authority: AccountKey,
}

#[derive(Clone, Copy, Debug, PartialEq, Eq)]
pub struct AuthorityTransferred {
    pub new_authority: AccountKey,
}

#[derive(Clone, Copy, Debug, PartialEq, Eq)]
pub struct PauserUpdated {
    pub new_pauser: AccountKey,
}

} // verus!
