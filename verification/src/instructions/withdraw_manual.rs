//! Taking the escrow back without a swap and without fees.

use vstd::prelude::*;
use crate::errors::PyroSwapError;
use crate::instructions::cancel_position::Refund;
use crate::state::{Address, Position, PositionStatus};

verus! {

/// Who asks for the escrow of a position.
#[derive(Clone, Copy, Debug, PartialEq, Eq)]
pub struct WithdrawManual {
    pub owner: Address,
}

/// What a manual withdrawal makes of a position: the closed position and
/// what goes back, or the reason for refusing.
pub open spec fn withdrawn(position: Position, ctx: WithdrawManual) -> Result<
    (Position, Refund),
    PyroSwapError,
> {
    match position.closed_error() {
        Some(e) => Err(e),
        None => if ctx.owner != position.owner {
            Err(PyroSwapError::Unauthorized)
        } else if position.escrow_balance == 0 {
            Err(PyroSwapError::InvalidAmount)
        } else {
            Ok(
                (
                    position.closed_as(PositionStatus::Cancelled, position.executed_at),
                    Refund {
                        owner: position.owner,
                        escrow_amount: position.escrow_balance,
                        execution_fee: position.execution_fee_escrow,
                    },
                ),
            )
        },
    }
}

/// Hands the escrow of an active position straight back to its owner.
///
/// No fee is taken. The position is closed as `Cancelled`, so the executor
/// reward goes back with the escrow. A closed position is refused with
/// `PositionAlreadyExecuted` or `PositionAlreadyCancelled`, anyone but the
/// owner with `Unauthorized`, and an empty escrow with `InvalidAmount`; the
/// position then stays as it is.
pub fn handler(position: &mut Position, ctx: &WithdrawManual) -> (r: Result<Refund, PyroSwapError>)
    ensures
        match withdrawn(*old(position), *ctx) {
            Ok((p, refund)) => r == Ok::<Refund, PyroSwapError>(refund) && *final(position) == p,
            Err(e) => r == Err::<Refund, PyroSwapError>(e) && *final(position) == *old(position),
        },
        old(position).well_formed() ==> final(position).well_formed(),
{
    match position.ensure_active() {
        Ok(()) => {},
        Err(e) => {
            return Err(e);
        },
    }
    if !ctx.owner.same(&position.owner) {
        return Err(PyroSwapError::Unauthorized);
    }
    if position.escrow_balance == 0 {
        return Err(PyroSwapError::InvalidAmount);
    }
    let refund = Refund {
        owner: position.owner,
        escrow_amount: position.escrow_balance,
        execution_fee: position.execution_fee_escrow,
    };
    position.status = PositionStatus::Cancelled;
    position.escrow_balance = 0;
    position.execution_fee_escrow = 0;
    Ok(refund)
}

} // verus!
