//! Executing a position once its trigger holds.

use vstd::prelude::*;
use crate::constants::DEFAULT_SLIPPAGE_BPS;
use crate::dex::{route, routed, venue_min_accounts, SwapInstruction};
use crate::errors::PyroSwapError;
use crate::fees::{split, split_spec};
use crate::oracle::pyth::{get_pyth_price, validated_price, PriceFeedData};
use crate::slippage::{min_amount_out, min_output};
use crate::state::{Address, Clock, GlobalConfig, Position, PositionStatus};

verus! {

/// What an execution runs against: who asks for it, the fee policy, the
/// price feed as it stands, the time, and how many venue accounts came with
/// the call.
#[derive(Clone, Copy, Debug, PartialEq, Eq)]
pub struct ExecutePosition {
    pub executor: Address,
    pub config: GlobalConfig,
    pub oracle_price_feed: PriceFeedData,
    pub clock: Clock,
    pub remaining_accounts: usize,
}

/// Who gets what when a position is executed.
#[derive(Clone, Copy, Debug, PartialEq, Eq)]
pub struct Settlement {
    /// The fee destination of the policy.
    pub fee_destination: Address,
    /// To the fee destination, out of the proceeds.
    pub protocol_fee: u64,
    /// The position's referrer, if it has one.
    pub referrer: Option<Address>,
    /// To the referrer, out of the proceeds; zero without a referrer.
    pub referral_fee: u64,
    /// The position's owner.
    pub owner: Address,
    /// To the owner: the proceeds less both fees.
    pub owner_proceeds: u64,
    /// Who executed the position.
    pub executor: Address,
    /// To the executor, out of the position's reserve.
    pub executor_reward: u64,
}

/// The tolerance that applies: the default where none is named.
pub open spec fn tolerance(slippage_bps: Option<u16>) -> u16 {
    match slippage_bps {
        Some(bps) => bps,
        None => DEFAULT_SLIPPAGE_BPS,
    }
}

/// The referral rate that applies to a position: none without a referrer.
pub open spec fn referral_rate(position: Position, config: GlobalConfig) -> Option<u16> {
    if position.referrer is Some {
        Some(config.referral_fee_share_bps)
    } else {
        None
    }
}

/// Whether the position may be swapped now, and for how much at least: the
/// least output, or the first check that fails.
pub open spec fn planned(position: Position, ctx: ExecutePosition, slippage_bps: Option<u16>)
    -> Result<u64, PyroSwapError> {
    match position.closed_error() {
        Some(e) => Err(e),
        None => if ctx.oracle_price_feed.id != position.oracle_price_feed {
            Err(PyroSwapError::InvalidOracleAccount)
        } else {
            match validated_price(ctx.oracle_price_feed, ctx.clock.unix_timestamp) {
                Err(e) => Err(e),
                Ok(price) => match position.trigger_outcome(price.price) {
                    Err(e) => Err(e),
                    Ok(triggered) => if !triggered {
                        Err(PyroSwapError::PositionNotTriggered)
                    } else {
                        min_output(position.escrow_balance, price, tolerance(slippage_bps))
                    },
                },
            }
        },
    }
}

/// What an execution with post-swap balance `proceeds` makes of a position:
/// the closed position and the settlement, or the first check that fails.
pub open spec fn executed(
    position: Position,
    ctx: ExecutePosition,
    slippage_bps: Option<u16>,
    proceeds: u64,
) -> Result<(Position, Settlement), PyroSwapError> {
    match planned(position, ctx, slippage_bps) {
        Err(e) => Err(e),
        Ok(min_out) => if !position.preferred_dex.is_supported() {
            Err(PyroSwapError::InvalidDexType)
        } else if ctx.remaining_accounts < venue_min_accounts(position.preferred_dex) {
            Err(PyroSwapError::InvalidAccountsLength)
        } else if proceeds < min_out {
            Err(PyroSwapError::SlippageExceeded)
        } else {
            match split_spec(
                proceeds,
                ctx.config.protocol_fee_bps,
                referral_rate(position, ctx.config),
            ) {
                Err(e) => Err(e),
                Ok(fees) => Ok(
                    (
                        position.closed_as(
                            PositionStatus::Executed,
                            Some(ctx.clock.unix_timestamp),
                        ),
                        Settlement {
                            fee_destination: ctx.config.fee_destination,
                            protocol_fee: fees.protocol_fee,
                            referrer: position.referrer,
                            referral_fee: fees.referral_fee,
                            owner: position.owner,
                            owner_proceeds: fees.net_amount,
                            executor: ctx.executor,
                            executor_reward: position.execution_fee_escrow,
                        },
                    ),
                ),
            }
        },
    }
}

/// Decides whether a position may be executed now and builds the swap that
/// executes it. Nothing is changed.
///
/// Checked in this order: the position is active; the feed is the one the
/// position was opened against (`InvalidOracleAccount`); the feed gives a
/// valid price; the thresholds can be computed (`MathOverflow`) and the
/// price has crossed one of them (`PositionNotTriggered`); the least output
/// can be computed from the price and the tolerance; the venue is supported
/// and has its accounts. The swap sells the whole escrow.
pub fn plan_swap(position: &Position, ctx: &ExecutePosition, slippage_bps: Option<u16>) -> (r:
    Result<SwapInstruction, PyroSwapError>)
    ensures
        match planned(*position, *ctx, slippage_bps) {
            Err(e) => r == Err::<SwapInstruction, PyroSwapError>(e),
            Ok(min_out) => routed(
                position.preferred_dex,
                position.escrow_balance,
                min_out,
                ctx.remaining_accounts,
                r,
            ),
        },
{
    match position.ensure_active() {
        Ok(()) => {},
        Err(e) => {
            return Err(e);
        },
    }
    if !ctx.oracle_price_feed.id.same(&position.oracle_price_feed) {
        return Err(PyroSwapError::InvalidOracleAccount);
    }
    let price = match get_pyth_price(
        &ctx.oracle_price_feed,
        ctx.clock.slot,
        ctx.clock.unix_timestamp,
    ) {
        Ok(p) => p,
        Err(e) => {
            return Err(e);
        },
    };
    match position.check_trigger(price.price) {
        Ok(true) => {},
        Ok(false) => {
            return Err(PyroSwapError::PositionNotTriggered);
        },
        Err(e) => {
            return Err(e);
        },
    }
    let slippage: u16 = match slippage_bps {
        Some(bps) => bps,
        None => DEFAULT_SLIPPAGE_BPS,
    };
    let min_out = match min_amount_out(position.escrow_balance, &price, slippage) {
        Ok(m) => m,
        Err(e) => {
            return Err(e);
        },
    };
    route(position.preferred_dex, position.escrow_balance, min_out, ctx.remaining_accounts)
}

/// Executes a position whose swap has been made, and closes it.
///
/// `proceeds` is the escrow balance as read after the swap. Everything that
/// `plan_swap` checks is checked again; then the proceeds must reach the
/// least output (`SlippageExceeded`) and cover the fees
/// (`InsufficientFunds`). On success the proceeds are split between the fee
/// destination, the referrer if there is one, and the owner; the whole
/// executor reward goes to the executor; the position is closed as
/// `Executed` at the time of the call. On any failure the position stays as
/// it is and nothing is to be paid.
pub fn handler(
    position: &mut Position,
    ctx: &ExecutePosition,
    slippage_bps: Option<u16>,
    proceeds: u64,
) -> (r: Result<Settlement, PyroSwapError>)
    ensures
        match executed(*old(position), *ctx, slippage_bps, proceeds) {
            Ok((p, settlement)) => r == Ok::<Settlement, PyroSwapError>(settlement)
                && *final(position) == p,
            Err(e) => r == Err::<Settlement, PyroSwapError>(e)
                && *final(position) == *old(position),
        },
        r matches Ok(s) ==> s.protocol_fee + s.referral_fee + s.owner_proceeds == proceeds
            && s.executor_reward == old(position).execution_fee_escrow
            && (s.referrer is None ==> s.referral_fee == 0),
        old(position).well_formed() ==> final(position).well_formed(),
{
    let instruction = match plan_swap(position, ctx, slippage_bps) {
        Ok(ix) => ix,
        Err(e) => {
            return Err(e);
        },
    };
    if proceeds < instruction.min_amount_out {
        return Err(PyroSwapError::SlippageExceeded);
    }
    let referral = if position.referrer.is_some() {
        Some(ctx.config.referral_fee_share_bps)
    } else {
        None
    };
    let fees = match split(proceeds, ctx.config.protocol_fee_bps, referral) {
        Ok(f) => f,
        Err(e) => {
            return Err(e);
        },
    };
    let settlement = Settlement {
        fee_destination: ctx.config.fee_destination,
        protocol_fee: fees.protocol_fee,
        referrer: position.referrer,
        referral_fee: fees.referral_fee,
        owner: position.owner,
        owner_proceeds: fees.net_amount,
        executor: ctx.executor,
        executor_reward: position.execution_fee_escrow,
    };
    position.status = PositionStatus::Executed;
    position.executed_at = Some(ctx.clock.unix_timestamp);
    position.escrow_balance = 0;
    position.execution_fee_escrow = 0;
    Ok(settlement)
}

} // verus!
