use vstd::prelude::*;
use crate::account_key::AccountKey;

verus! {

/// The accounts presented to set up a configuration: the signer that becomes
/// its authority and the token type it will govern.
#[derive(Clone, Copy, Debug, PartialEq, Eq)]
pub struct Initialize {
    pub authority: AccountKey,
    pub mint: AccountKey,
}

/// The accounts presented to issue tokens: the signing minter and the owner
/// of the receiving token account.
#[derive(Clone, Copy, Debug, PartialEq, Eq)]
pub struct MintOperation {
    pub minter: AccountKey,
    pub recipient: AccountKey,
}

/// The accounts presented to destroy tokens: the signing burner and the
/// token account the tokens leave.
#[derive(Clone, Copy, Debug, PartialEq, Eq)]
pub struct BurnOperation {
    pub burner: AccountKey,
    pub token_account: AccountKey,
}

/// The accounts presented to freeze or thaw a token account. The freezer is
/// checked by the token ledger against the freeze authority it holds.
#[derive(Clone, Copy, Debug, PartialEq, Eq)]
pub struct FreezeThaw {
    pub freezer: AccountKey,
    pub token_account: AccountKey,
}

/// The signer presented to pause or resume a configuration.
#[derive(Clone, Copy, Debug, PartialEq, Eq)]
pub struct PauseManagement {
    pub pauser: AccountKey,
}

/// The signer presented to change a role holder.
#[derive(Clone, Copy, Debug, PartialEq, Eq)]
pub struct AuthorityManagement {
    pub authority: AccountKey,
}

} // verus!
