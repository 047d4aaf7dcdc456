//! Limits and defaults of the protocol.

use vstd::prelude::*;

verus! {

/// Largest protocol fee, in basis points (5%).
pub const MAX_PROTOCOL_FEE_BPS: u16 = 500;

/// Largest referral share, in basis points (50%).
pub const MAX_REFERRAL_SHARE_BPS: u16 = 5000;

/// Largest take of both fees together, in basis points.
pub const MAX_COMBINED_FEE_BPS: u16 = 5500;

/// Smallest reward that may be reserved for the executor of a position.
pub const MIN_EXECUTION_FEE: u64 = 5_000_000;

/// Largest stop-loss offset, in basis points (50%).
pub const MAX_STOP_LOSS_BPS: u16 = 5000;

/// Smallest take-profit offset, in basis points (1%).
pub const MIN_TAKE_PROFIT_BPS: u16 = 100;

/// Largest take-profit offset, in basis points (100%).
pub const MAX_TAKE_PROFIT_BPS: u16 = 10000;

/// Width of the freshness window of an oracle price.
pub const MAX_PRICE_AGE_SLOTS: u64 = 25;

/// Largest confidence interval, in basis points of the price (1%).
pub const MIN_PRICE_CONFIDENCE_BPS: u64 = 100;

/// Slippage tolerance used when the executor names none (0.5%).
pub const DEFAULT_SLIPPAGE_BPS: u16 = 50;

/// Largest slippage tolerance (10%).
pub const MAX_SLIPPAGE_BPS: u16 = 1000;

/// One whole, in basis points.
pub const BPS_DENOMINATOR: u64 = 10000;

} // verus!
