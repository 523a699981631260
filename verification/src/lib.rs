//! An over-collateralized stablecoin: users deposit a collateral token and
//! are issued stablecoin at a fixed collateral ratio, and burn stablecoin
//! to get collateral back.
//!
//! The library decides; it moves nothing. `collateral` sizes the collateral
//! for an amount. `registry` holds the record of a stablecoin and keeps its
//! supply. `oracle` reads the price out of an oracle record. `initialize`
//! creates a stablecoin, and `mint` and `redeem` take one operation each
//! through its steps, naming in `ledger`'s terms what the token ledger is
//! to do next. `history` proves what holds over any run of operations.

pub mod collateral;
pub mod error;
pub mod history;
pub mod identity;
pub mod initialize;
pub mod ledger;
pub mod mint;
pub mod oracle;
pub mod redeem;
pub mod registry;

pub use error::StablecoinError;
pub use initialize::{initialize_stablecoin, InitializeStablecoin};
pub use mint::{mint_stablecoin, MintStablecoin};
pub use redeem::{redeem_stablecoin, RedeemStablecoin};
pub use registry::StablecoinData;
