//! Casper Predict: a prediction marketplace whose shares are priced by a
//! linear bonding curve.
//!
//! - [`u256`]: the 256-bit unsigned amounts every ledger works in
//! - [`types`]: market data, user positions and the bonding curve
//! - [`errors`]: the failure codes every operation reports
//! - [`events`]: the records an operation hands back to be published
//! - [`vault`]: the escrow ledger of market balances and platform fees
//! - [`market`]: one market's trading, resolution and claims
//! - [`factory`]: the registry that creates markets under global limits
//! - [`deploy`]: setting up a vault and a factory together
use vstd::prelude::*;

pub mod u256;
pub mod types;
pub mod errors;
pub mod events;
pub mod vault;
pub mod market;
pub mod factory;
pub mod deploy;

pub use u256::U256;
pub use deploy::DeploySystemScript;
pub use factory::MarketFactory;
pub use market::Market;
pub use vault::Vault;

verus! {

} // verus!
