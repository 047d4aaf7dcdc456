//! The position's life as a state machine, and what holds of every run of it.
//!
//! A position is opened `Active`. Cancelling, withdrawing and executing are
//! the only operations on it; each either closes it or leaves it as it is.

use vstd::prelude::*;
use crate::constants::{
    MAX_STOP_LOSS_BPS, MAX_TAKE_PROFIT_BPS, MIN_EXECUTION_FEE, MIN_TAKE_PROFIT_BPS,
};
use crate::errors::PyroSwapError;
use crate::instructions::cancel_position::{cancelled, CancelPosition, Refund};
use crate::instructions::execute_position::{executed, ExecutePosition, Settlement};
use crate::instructions::open_position::{opened, OpenPosition};
use crate::instructions::withdraw_manual::{withdrawn, WithdrawManual};
use crate::oracle::pyth::validated_price;
use crate::state::{triggers_within_limits, DexType, Position, PositionStatus};

verus! {

/// One operation on an existing position, with everything it is called with.
pub enum Operation {
    Cancel { ctx: CancelPosition },
    Withdraw { ctx: WithdrawManual },
    Execute { ctx: ExecutePosition, slippage_bps: Option<u16>, proceeds: u64 },
}

/// The position after `op`: as the operation leaves it where it succeeds,
/// unchanged where it fails.
pub open spec fn step(position: Position, op: Operation) -> Position {
    match op {
        Operation::Cancel { ctx } => match cancelled(position, ctx) {
            Ok((p, _)) => p,
            Err(_) => position,
        },
        Operation::Withdraw { ctx } => match withdrawn(position, ctx) {
            Ok((p, _)) => p,
            Err(_) => position,
        },
        Operation::Execute { ctx, slippage_bps, proceeds } => match executed(
            position,
            ctx,
            slippage_bps,
            proceeds,
        ) {
            Ok((p, _)) => p,
            Err(_) => position,
        },
    }
}

/// Whether `op` succeeds on `position`.
pub open spec fn succeeds(position: Position, op: Operation) -> bool {
    match op {
        Operation::Cancel { ctx } => cancelled(position, ctx) is Ok,
        Operation::Withdraw { ctx } => withdrawn(position, ctx) is Ok,
        Operation::Execute { ctx, slippage_bps, proceeds } => executed(
            position,
            ctx,
            slippage_bps,
            proceeds,
        ) is Ok,
    }
}

/// The position after the operations `ops`, in order.
pub open spec fn run(position: Position, ops: Seq<Operation>) -> Position
    decreases ops.len(),
{
    if ops.len() == 0 {
        position
    } else {
        step(run(position, ops.drop_last()), ops.last())
    }
}

/// Opening checks the trigger offsets first: with a sufficient executor
/// reward, a supported venue and a valid oracle price, a position is opened
/// exactly when both offsets lie within their limits. A stop-loss offset
/// above its limit gives `StopLossTooHigh`; otherwise a take-profit offset
/// outside its limits gives `TakeProfitTooLow`.
pub proof fn lemma_open_checks_offsets(
    ctx: OpenPosition,
    amount_in: u64,
    sl_bps: u16,
    tp_bps: u16,
    entry_price: u64,
    execution_fee: u64,
    preferred_dex: u8,
)
    requires
        execution_fee >= MIN_EXECUTION_FEE,
        DexType::from_tag_spec(preferred_dex) is Some,
        validated_price(ctx.oracle_price_feed, ctx.clock.unix_timestamp) is Ok,
    ensures
        opened(ctx, amount_in, sl_bps, tp_bps, entry_price, execution_fee, preferred_dex) is Ok
            <==> triggers_within_limits(sl_bps, tp_bps),
        sl_bps > MAX_STOP_LOSS_BPS ==> opened(
            ctx,
            amount_in,
            sl_bps,
            tp_bps,
            entry_price,
            execution_fee,
            preferred_dex,
        ) == Err::<Position, PyroSwapError>(PyroSwapError::StopLossTooHigh),
        sl_bps <= MAX_STOP_LOSS_BPS && !(MIN_TAKE_PROFIT_BPS <= tp_bps <= MAX_TAKE_PROFIT_BPS)
            ==> opened(ctx, amount_in, sl_bps, tp_bps, entry_price, execution_fee, preferred_dex)
            == Err::<Position, PyroSwapError>(PyroSwapError::TakeProfitTooLow),
{
}

/// Offsets outside their limits never open a position, whatever else the
/// call holds.
pub proof fn lemma_bad_offsets_open_nothing(
    ctx: OpenPosition,
    amount_in: u64,
    sl_bps: u16,
    tp_bps: u16,
    entry_price: u64,
    execution_fee: u64,
    preferred_dex: u8,
)
    requires
        !triggers_within_limits(sl_bps, tp_bps),
    ensures
        opened(ctx, amount_in, sl_bps, tp_bps, entry_price, execution_fee, preferred_dex) is Err,
{
}

/// A single operation changes the status only from `Active`, and then to
/// `Executed` or `Cancelled`.
pub proof fn lemma_step_moves_forward(position: Position, op: Operation)
    ensures
        step(position, op).status == position.status || (position.status
            == PositionStatus::Active && step(position, op).status != PositionStatus::Active),
        position.well_formed() ==> step(position, op).well_formed(),
{
}

/// No operation succeeds on a closed position, and none changes it.
pub proof fn lemma_closed_rejects(position: Position, op: Operation)
    requires
        position.is_closed(),
    ensures
        !succeeds(position, op),
        step(position, op) == position,
{
}

/// A closed position stays as it is through every sequence of operations:
/// `Active` is never seen again.
pub proof fn lemma_closed_is_final(position: Position, ops: Seq<Operation>)
    requires
        position.is_closed(),
    ensures
        run(position, ops) == position,
    decreases ops.len(),
{
    if ops.len() > 0 {
        lemma_closed_is_final(position, ops.drop_last());
        lemma_closed_rejects(position, ops.last());
    }
}

/// Along any run, once the position is closed after some operations it is
/// the same position after any more.
pub proof fn lemma_run_never_reopens(position: Position, ops: Seq<Operation>, more: Seq<Operation>)
    requires
        run(position, ops).is_closed(),
    ensures
        run(position, ops + more) == run(position, ops),
    decreases more.len(),
{
    if more.len() == 0 {
        assert(ops + more =~= ops);
    } else {
        lemma_run_never_reopens(position, ops, more.drop_last());
        assert((ops + more).drop_last() =~= ops + more.drop_last());
        assert((ops + more).last() == more.last());
        lemma_closed_rejects(run(position, ops), more.last());
    }
}

/// A position is executed at most once: after a successful execution every
/// further execution fails with `PositionAlreadyExecuted`, leaves nothing in
/// custody to move, and changes nothing.
pub proof fn lemma_execute_at_most_once(
    position: Position,
    ctx: ExecutePosition,
    slippage_bps: Option<u16>,
    proceeds: u64,
    again_ctx: ExecutePosition,
    again_slippage_bps: Option<u16>,
    again_proceeds: u64,
)
    requires
        executed(position, ctx, slippage_bps, proceeds) is Ok,
    ensures
        ({
            let after = executed(position, ctx, slippage_bps, proceeds)->Ok_0.0;
            &&& after.status == PositionStatus::Executed
            &&& after.escrow_balance == 0
            &&& after.execution_fee_escrow == 0
            &&& executed(after, again_ctx, again_slippage_bps, again_proceeds) == Err::<
                (Position, Settlement),
                PyroSwapError,
            >(PyroSwapError::PositionAlreadyExecuted)
        }),
{
}

/// Cancelling gives back the whole escrow and the whole executor reward and
/// closes the position as `Cancelled`; cancelling or executing it again
/// fails with `PositionAlreadyCancelled`.
pub proof fn lemma_cancel_refunds_in_full(
    position: Position,
    ctx: CancelPosition,
    again: CancelPosition,
    execute_ctx: ExecutePosition,
    slippage_bps: Option<u16>,
    proceeds: u64,
)
    requires
        cancelled(position, ctx) is Ok,
    ensures
        ({
            let (after, refund) = cancelled(position, ctx)->Ok_0;
            &&& refund.escrow_amount == position.escrow_balance
            &&& refund.execution_fee == position.execution_fee_escrow
            &&& after.status == PositionStatus::Cancelled
            &&& after.escrow_balance == 0
            &&& after.execution_fee_escrow == 0
            &&& cancelled(after, again) == Err::<(Position, Refund), PyroSwapError>(
                PyroSwapError::PositionAlreadyCancelled,
            )
            &&& executed(after, execute_ctx, slippage_bps, proceeds) == Err::<
                (Position, Settlement),
                PyroSwapError,
            >(PyroSwapError::PositionAlreadyCancelled)
        }),
{
}

/// The executor reward is paid only by a successful execution, and then in
/// full; a successful cancellation or withdrawal returns it to the owner in
/// full.
pub proof fn lemma_reward_goes_one_way(position: Position, op: Operation)
    requires
        succeeds(position, op),
    ensures
        match op {
            Operation::Cancel { ctx } => cancelled(position, ctx)->Ok_0.1.execution_fee
                == position.execution_fee_escrow,
            Operation::Withdraw { ctx } => withdrawn(position, ctx)->Ok_0.1.execution_fee
                == position.execution_fee_escrow,
            Operation::Execute { ctx, slippage_bps, proceeds } => executed(
                position,
                ctx,
                slippage_bps,
                proceeds,
            )->Ok_0.1.executor_reward == position.execution_fee_escrow,
        },
        step(position, op).execution_fee_escrow == 0,
        step(position, op).escrow_balance == 0,
{
}

} // verus!
