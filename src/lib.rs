//! A verified model of an authority-gated stablecoin: a configuration record
//! with role holders, a pause switch and checked supply bookkeeping, together
//! with collateral positions and a few small account programs.
pub mod account_key;
pub mod error;
pub mod events;
pub mod state;
pub mod instructions;
pub mod stablecoin;
pub mod laws;
pub mod collateral;
pub mod accounts;
pub mod text;
pub mod shapes;
