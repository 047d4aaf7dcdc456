//! Opening a position.

use vstd::prelude::*;
use crate::constants::{
    MAX_STOP_LOSS_BPS, MAX_TAKE_PROFIT_BPS, MIN_EXECUTION_FEE, MIN_TAKE_PROFIT_BPS,
};
use crate::errors::PyroSwapError;
use crate::oracle::pyth::{get_pyth_price, validated_price, PriceFeedData};
use crate::state::{Address, Clock, DexType, Position, PositionStatus};

verus! {

/// Who opens a position, on which assets, against which price feed, and when.
#[derive(Clone, Copy, Debug, PartialEq, Eq)]
pub struct OpenPosition {
    pub user: Address,
    pub input_mint: Address,
    pub output_mint: Address,
    pub referrer: Option<Address>,
    pub oracle_price_feed: PriceFeedData,
    pub clock: Clock,
}

/// What opening a position gives: the new position, or the first check that
/// fails.
pub open spec fn opened(
    ctx: OpenPosition,
    amount_in: u64,
    sl_bps: u16,
    tp_bps: u16,
    entry_price: u64,
    execution_fee: u64,
    preferred_dex: u8,
) -> Result<Position, PyroSwapError> {
    if sl_bps > MAX_STOP_LOSS_BPS {
        Err(PyroSwapError::StopLossTooHigh)
    } else if tp_bps < MIN_TAKE_PROFIT_BPS || tp_bps > MAX_TAKE_PROFIT_BPS {
        Err(PyroSwapError::TakeProfitTooLow)
    } else if execution_fee < MIN_EXECUTION_FEE {
        Err(PyroSwapError::ExecutionFeeTooLow)
    } else {
        match DexType::from_tag_spec(preferred_dex) {
            None => Err(PyroSwapError::InvalidDexType),
            Some(dex) => match validated_price(ctx.oracle_price_feed, ctx.clock.unix_timestamp) {
                Err(e) => Err(e),
                Ok(_) => Ok(
                    Position {
                        owner: ctx.user,
                        input_mint: ctx.input_mint,
                        output_mint: ctx.output_mint,
                        referrer: ctx.referrer,
                        amount_in,
                        escrow_balance: amount_in,
                        sl_bps,
                        tp_bps,
                        entry_price,
                        execution_fee_escrow: execution_fee,
                        oracle_price_feed: ctx.oracle_price_feed.id,
                        preferred_dex: dex,
                        status: PositionStatus::Active,
                        created_at: ctx.clock.unix_timestamp,
                        executed_at: None,
                    },
                ),
            },
        }
    }
}

/// Opens a position.
///
/// The trigger offsets, the executor reward and the venue tag are checked,
/// in that order, and the price feed must give a valid price at the time of
/// opening. The new position is active and holds `amount_in` in escrow and
/// `execution_fee` as the executor's reward; the caller moves both into
/// custody. Where a check fails no position comes into being.
pub fn handler(
    ctx: &OpenPosition,
    amount_in: u64,
    sl_bps: u16,
    tp_bps: u16,
    entry_price: u64,
    execution_fee: u64,
    preferred_dex: u8,
) -> (r: Result<Position, PyroSwapError>)
    ensures
        r == opened(*ctx, amount_in, sl_bps, tp_bps, entry_price, execution_fee, preferred_dex),
        r matches Ok(p) ==> p.well_formed() && p.status == PositionStatus::Active
            && p.escrow_balance == amount_in && p.execution_fee_escrow == execution_fee,
{
    if sl_bps > MAX_STOP_LOSS_BPS {
        return Err(PyroSwapError::StopLossTooHigh);
    }
    if tp_bps < MIN_TAKE_PROFIT_BPS || tp_bps > MAX_TAKE_PROFIT_BPS {
        return Err(PyroSwapError::TakeProfitTooLow);
    }
    if execution_fee < MIN_EXECUTION_FEE {
        return Err(PyroSwapError::ExecutionFeeTooLow);
    }
    let dex = match DexType::from_tag(preferred_dex) {
        Some(d) => d,
        None => {
            return Err(PyroSwapError::InvalidDexType);
        },
    };
    match get_pyth_price(&ctx.oracle_price_feed, ctx.clock.slot, ctx.clock.unix_timestamp) {
        Ok(_) => {},
        Err(e) => {
            return Err(e);
        },
    }
    Ok(
        Position {
            owner: ctx.user,
            input_mint: ctx.input_mint,
            output_mint: ctx.output_mint,
            referrer: ctx.referrer,
            amount_in,
            escrow_balance: amount_in,
            sl_bps,
            tp_bps,
            entry_price,
            execution_fee_escrow: execution_fee,
            oracle_price_feed: ctx.oracle_price_feed.id,
            preferred_dex: dex,
            status: PositionStatus::Active,
            created_at: ctx.clock.unix_timestamp,
            executed_at: None,
        },
    )
}

} // verus!
