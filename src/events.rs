//! The records an operation hands back to be published on the ledger's event
//! log, one flat record per kind of change.
use vstd::prelude::*;
use crate::types::Address;
use crate::u256::U256;

verus! {

/// A market was registered by the factory.
#[derive(Clone, Debug)]
pub struct MarketCreated {
    pub market_id: u64,
    /// 0 for binary, 1 for multiple choice.
    pub market_type: u8,
    pub creator: Address,
    pub question: String,
    pub end_time: u64,
    pub category: String,
}

/// The factory's platform fee changed.
#[derive(Clone, Copy, Debug)]
pub struct PlatformFeeUpdated {
    pub old_fee: u64,
    pub new_fee: u64,
}

/// The factory was paused or unpaused.
#[derive(Clone, Copy, Debug)]
pub struct FactoryPauseStatusChanged {
    pub paused: bool,
}

/// Shares were bought.
#[derive(Clone, Copy, Debug)]
pub struct SharesPurchased {
    pub user: Address,
    pub market_id: u64,
    pub outcome_id: u64,
    pub shares: U256,
    pub cost: U256,
    /// The outcome's price after the purchase.
    pub new_price: U256,
    pub timestamp: u64,
}

/// Shares were sold.
#[derive(Clone, Copy, Debug)]
pub struct SharesSold {
    pub user: Address,
    pub market_id: u64,
    pub outcome_id: u64,
    pub shares: U256,
    /// What the seller receives, after the fee.
    pub revenue: U256,
    /// The outcome's price after the sale.
    pub new_price: U256,
    pub timestamp: u64,
}

/// A market was resolved.
#[derive(Clone, Debug)]
pub struct MarketResolved {
    pub market_id: u64,
    pub winning_outcome: u64,
    pub resolver: Address,
    pub timestamp: u64,
    /// Reference to the evidence for the outcome.
    pub proof: String,
}

/// A market was closed to trading.
#[derive(Clone, Copy, Debug)]
pub struct MarketClosed {
    pub market_id: u64,
    pub timestamp: u64,
}

/// A market was cancelled.
#[derive(Clone, Debug)]
pub struct MarketCancelled {
    pub market_id: u64,
    pub reason: String,
    pub timestamp: u64,
}

/// A winner claimed a payout.
#[derive(Clone, Copy, Debug)]
pub struct WinningsClaimed {
    pub user: Address,
    pub market_id: u64,
    pub payout: U256,
    pub timestamp: u64,
}

/// A participant of a cancelled market claimed a refund.
#[derive(Clone, Copy, Debug)]
pub struct RefundClaimed {
    pub user: Address,
    pub market_id: u64,
    pub amount: U256,
    pub timestamp: u64,
}

/// Funds were deposited into the vault for a market.
#[derive(Clone, Copy, Debug)]
pub struct FundsDeposited {
    pub market_id: u64,
    pub amount: U256,
    pub from_contract: Address,
}

/// Funds were withdrawn from a market's vault balance.
#[derive(Clone, Copy, Debug)]
pub struct FundsWithdrawn {
    pub market_id: u64,
    pub recipient: Address,
    pub amount: U256,
}

/// Part of a market's vault balance was moved into the fee pool.
#[derive(Clone, Copy, Debug)]
pub struct FeesCollected {
    pub market_id: u64,
    pub amount: U256,
}

/// The fee pool was paid out.
#[derive(Clone, Copy, Debug)]
pub struct FeesClaimed {
    pub recipient: Address,
    pub amount: U256,
}

/// A market was allowed to move vault funds.
#[derive(Clone, Copy, Debug)]
pub struct MarketAuthorized {
    pub market: Address,
}

/// A market lost its permission to move vault funds.
#[derive(Clone, Copy, Debug)]
pub struct MarketRevoked {
    pub market: Address,
}

/// The vault was paused or unpaused.
#[derive(Clone, Copy, Debug)]
pub struct VaultPauseStatusChanged {
    pub paused: bool,
}

/// A contract's admin changed.
#[derive(Clone, Copy, Debug)]
pub struct AdminTransferred {
    pub previous_admin: Address,
    pub new_admin: Address,
}

/// A market's resolver changed.
#[derive(Clone, Copy, Debug)]
pub struct ResolverUpdated {
    pub market_id: u64,
    pub previous_resolver: Address,
    pub new_resolver: Address,
}

} // verus!
