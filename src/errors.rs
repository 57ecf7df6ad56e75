//! The failure codes of the market, vault and factory operations.
//!
//! A failed operation changes nothing and reports one of these; its numeric
//! code is what the ledger shows when the call reverts.
use vstd::prelude::*;

verus! {

/// Why an operation failed.
#[derive(Clone, Copy, Debug, PartialEq, Eq, Structural)]
pub enum Error {
    // Access control
    /// Caller is not authorized to perform this action.
    AccessDenied,
    /// Caller is not the contract admin.
    NotAdmin,
    /// Caller is not the designated resolver.
    NotResolver,
    /// Caller is not an authorized market contract.
    NotAuthorizedMarket,
    /// Caller is not the factory contract.
    NotFactory,

    // Market state
    /// Market is not in the Active state.
    MarketNotActive,
    /// Market is not in the Closed state.
    MarketNotClosed,
    /// Market is not in the Resolved state.
    MarketNotResolved,
    /// Market has already been resolved.
    MarketAlreadyResolved,
    /// Market end time has not been reached yet.
    MarketNotEnded,
    /// Market has been cancelled.
    MarketCancelled,
    /// Market end time has already passed.
    MarketAlreadyEnded,
    /// Market is not in the Cancelled state.
    MarketNotCancelled,

    // Trading
    /// User does not have enough shares to sell.
    InsufficientShares,
    /// Attached value is insufficient for the purchase.
    InsufficientFunds,
    /// Price slippage exceeds the specified limit.
    SlippageExceeded,
    /// The specified outcome ID is invalid.
    InvalidOutcome,
    /// Cannot trade zero shares.
    ZeroAmount,
    /// Share amount must be positive.
    InvalidShareAmount,
    /// Minimum receive amount not met.
    MinimumNotMet,

    // Vault
    /// Caller is not authorized to interact with the vault.
    UnauthorizedMarket,
    /// Vault does not have sufficient balance for this operation.
    InsufficientVaultBalance,
    /// Vault operations are currently paused.
    VaultPaused,
    /// Market has already been authorized.
    MarketAlreadyAuthorized,
    /// Market is not authorized.
    MarketNotAuthorized,
    /// Cannot withdraw more than the market balance.
    ExceedsMarketBalance,

    // Factory
    /// Market creation is currently paused.
    FactoryPaused,
    /// Market duration is outside the allowed range.
    InvalidMarketDuration,
    /// Initial liquidity is below the minimum required.
    InsufficientInitialLiquidity,
    /// Invalid number of outcomes for the market type.
    InvalidOutcomeCount,
    /// Question string is empty or too long.
    InvalidQuestion,
    /// Vault contract has not been set.
    VaultNotSet,
    /// Fee percentage is too high.
    FeeTooHigh,

    // Claim
    /// User has already claimed their winnings or refund.
    AlreadyClaimed,
    /// User has nothing to claim.
    NothingToClaim,
    /// User does not have a winning position.
    NoWinningPosition,
    /// User does not have any position to refund.
    NoPositionToRefund,

    // Arithmetic
    /// Arithmetic overflow occurred.
    Overflow,
    /// Arithmetic underflow occurred.
    Underflow,
    /// Division by zero.
    DivisionByZero,

    // Initialization
    /// Contract has already been initialized.
    AlreadyInitialized,
    /// Contract has not been initialized.
    NotInitialized,
    /// Invalid initialization parameters.
    InvalidInitParams,
}

impl Error {
    /// The numeric code the ledger reports for this failure.
    pub fn code(&self) -> (r: u16)
        ensures
            r == self.code_spec(),
    {
        match self {
            Error::AccessDenied => 1,
            Error::NotAdmin => 2,
            Error::NotResolver => 3,
            Error::NotAuthorizedMarket => 4,
            Error::NotFactory => 5,
            Error::MarketNotActive => 10,
            Error::MarketNotClosed => 11,
            Error::MarketNotResolved => 12,
            Error::MarketAlreadyResolved => 13,
            Error::MarketNotEnded => 14,
            Error::MarketCancelled => 15,
            Error::MarketAlreadyEnded => 16,
            Error::MarketNotCancelled => 17,
            Error::InsufficientShares => 20,
            Error::InsufficientFunds => 21,
            Error::SlippageExceeded => 22,
            Error::InvalidOutcome => 23,
            Error::ZeroAmount => 24,
            Error::InvalidShareAmount => 25,
            Error::MinimumNotMet => 26,
            Error::UnauthorizedMarket => 30,
            Error::InsufficientVaultBalance => 31,
            Error::VaultPaused => 32,
            Error::MarketAlreadyAuthorized => 33,
            Error::MarketNotAuthorized => 34,
            Error::ExceedsMarketBalance => 35,
            Error::FactoryPaused => 40,
            Error::InvalidMarketDuration => 41,
            Error::InsufficientInitialLiquidity => 42,
            Error::InvalidOutcomeCount => 43,
            Error::InvalidQuestion => 44,
            Error::VaultNotSet => 45,
            Error::FeeTooHigh => 46,
            Error::AlreadyClaimed => 50,
            Error::NothingToClaim => 51,
            Error::NoWinningPosition => 52,
            Error::NoPositionToRefund => 53,
            Error::Overflow => 60,
            Error::Underflow => 61,
            Error::DivisionByZero => 62,
            Error::AlreadyInitialized => 70,
            Error::NotInitialized => 71,
            Error::InvalidInitParams => 72,
        }
    }

    /// The numeric code of each failure, grouped by tens: access control,
    /// market state, trading, vault, factory, claims, arithmetic, setup.
    pub open spec fn code_spec(&self) -> u16 {
        match self {
            Error::AccessDenied => 1,
            Error::NotAdmin => 2,
            Error::NotResolver => 3,
            Error::NotAuthorizedMarket => 4,
            Error::NotFactory => 5,
            Error::MarketNotActive => 10,
            Error::MarketNotClosed => 11,
            Error::MarketNotResolved => 12,
            Error::MarketAlreadyResolved => 13,
            Error::MarketNotEnded => 14,
            Error::MarketCancelled => 15,
            Error::MarketAlreadyEnded => 16,
            Error::MarketNotCancelled => 17,
            Error::InsufficientShares => 20,
            Error::InsufficientFunds => 21,
            Error::SlippageExceeded => 22,
            Error::InvalidOutcome => 23,
            Error::ZeroAmount => 24,
            Error::InvalidShareAmount => 25,
            Error::MinimumNotMet => 26,
            Error::UnauthorizedMarket => 30,
            Error::InsufficientVaultBalance => 31,
            Error::VaultPaused => 32,
            Error::MarketAlreadyAuthorized => 33,
            Error::MarketNotAuthorized => 34,
            Error::ExceedsMarketBalance => 35,
            Error::FactoryPaused => 40,
            Error::InvalidMarketDuration => 41,
            Error::InsufficientInitialLiquidity => 42,
            Error::InvalidOutcomeCount => 43,
            Error::InvalidQuestion => 44,
            Error::VaultNotSet => 45,
            Error::FeeTooHigh => 46,
            Error::AlreadyClaimed => 50,
            Error::NothingToClaim => 51,
            Error::NoWinningPosition => 52,
            Error::NoPositionToRefund => 53,
            Error::Overflow => 60,
            Error::Underflow => 61,
            Error::DivisionByZero => 62,
            Error::AlreadyInitialized => 70,
            Error::NotInitialized => 71,
            Error::InvalidInitParams => 72,
        }
    }
}

} // verus!
