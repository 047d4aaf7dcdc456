//! The errors that the engine reports.

use vstd::prelude::*;

verus! {

/// Why an operation was refused. No operation that returns one of these has
/// changed any state.
#[derive(Clone, Copy, Debug, PartialEq, Eq, Structural)]
pub enum PyroSwapError {
    /// A basis-point value lies above its cap.
    InvalidBasisPoints,
    /// The stop-loss offset lies above `MAX_STOP_LOSS_BPS`.
    StopLossTooHigh,
    /// The take-profit offset lies outside
    /// `MIN_TAKE_PROFIT_BPS ..= MAX_TAKE_PROFIT_BPS`.
    TakeProfitTooLow,
    /// The reserved executor reward lies below `MIN_EXECUTION_FEE`.
    ExecutionFeeTooLow,
    /// Neither the take-profit nor the stop-loss threshold has been crossed.
    PositionNotTriggered,
    /// The position has already been executed.
    PositionAlreadyExecuted,
    /// The position has already been cancelled.
    PositionAlreadyCancelled,
    /// The oracle price lies outside the freshness window.
    StalePriceData,
    /// The confidence interval of the oracle price is too wide.
    LowPriceConfidence,
    /// A price or an output amount lies outside the slippage tolerance.
    SlippageExceeded,
    /// The venue tag names no supported venue.
    InvalidDexType,
    /// An amount of zero where a positive one is needed.
    InvalidAmount,
    /// The price feed is not the one the position was opened against.
    InvalidOracleAccount,
    /// The oracle price is not positive.
    InvalidOraclePrice,
    /// The caller is not allowed to perform the operation.
    Unauthorized,
    /// An intermediate result does not fit its integer type.
    MathOverflow,
    /// The fees exceed the amount they are taken from.
    InsufficientFunds,
    /// Too few accounts were supplied for the venue.
    InvalidAccountsLength,
}

} // verus!
