use vstd::prelude::*;
use crate::account_key::AccountKey;

verus! {

/// Longest token name, in characters.
pub const MAX_NAME_LEN: usize = 32;
/// Longest token symbol, in characters.
pub const MAX_SYMBOL_LEN: usize = 10;
/// Longest metadata URI, in characters.
pub const MAX_URI_LEN: usize = 200;

/// The record that governs one issued stablecoin: its metadata, the four
/// role holders, the pause switch and the running supply.
#[derive(Clone, Debug)]
pub struct StablecoinConfig {
    pub name: String,
    pub symbol: String,
    pub uri: String,
    pub decimals: u8,
    /// The token type this configuration governs.
    pub mint: AccountKey,
    pub authority: AccountKey,
    pub minter: AccountKey,
    pub burner: AccountKey,
    pub pauser: AccountKey,
    pub is_paused: bool,
    pub initialized: bool,
    pub total_supply: u64,
}

impl StablecoinConfig {
    /// Bytes that the stored record takes: each string as a four-byte
    /// length and its longest content, each key as 32 bytes.
    pub const SIZE: usize = 4 + 32 + 4 + 10 + 4 + 200 + 1 + 32 + 32 * 4 + 1 + 1 + 8;

    /// Metadata within its limits once the record is initialized.
    pub open spec fn wf(&self) -> bool {
        self.initialized ==> {
            &&& self.name@.len() <= MAX_NAME_LEN
            &&& self.symbol@.len() <= MAX_SYMBOL_LEN
            &&& self.uri@.len() <= MAX_URI_LEN
        }
    }

    /// A record that was allocated and never written: empty metadata,
    /// all-zero keys, not initialized, not paused, no supply.
    pub fn blank() -> (r: StablecoinConfig)
        ensures
            r.name@.len() == 0,
            r.symbol@.len() == 0,
            r.uri@.len() == 0,
            r.decimals == 0,
            r.mint.is_zero(),
            r.authority.is_zero(),
            r.minter.is_zero(),
            r.burner.is_zero(),
            r.pauser.is_zero(),
            !r.is_paused,
            !r.initialized,
            r.total_supply == 0,
            r.wf(),
    {
        StablecoinConfig {
            name: String::new(),
            symbol: String::new(),
            uri: String::new(),
            decimals: 0,
            mint: AccountKey::zeroed(),
            authority: AccountKey::zeroed(),
            minter: AccountKey::zeroed(),
            burner: AccountKey::zeroed(),
            pauser: AccountKey::zeroed(),
            is_paused: false,
            initialized: false,
            total_supply: 0,
        }
    }
}

} // verus!
