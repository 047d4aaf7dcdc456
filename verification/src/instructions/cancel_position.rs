//! Cancelling a position.

use vstd::prelude::*;
use crate::errors::PyroSwapError;
use crate::state::{Address, Position, PositionStatus};

verus! {

/// Who asks for a position to be cancelled.
#[derive(Clone, Copy, Debug, PartialEq, Eq)]
pub struct CancelPosition {
    pub owner: Address,
}

/// What goes back to the owner when a position is closed without a swap.
#[derive(Clone, Copy, Debug, PartialEq, Eq)]
pub struct Refund {
    /// Who receives both amounts: the position's owner.
    pub owner: Address,
    /// The escrowed input asset.
    pub escrow_amount: u64,
    /// The reserved executor reward.
    pub execution_fee: u64,
}

/// What cancelling makes of a position: the closed position and the refund,
/// or the reason for refusing.
pub open spec fn cancelled(position: Position, ctx: CancelPosition) -> Result<
    (Position, Refund),
    PyroSwapError,
> {
    match position.closed_error() {
        Some(e) => Err(e),
        None => if ctx.owner != position.owner {
            Err(PyroSwapError::Unauthorized)
        } else {
            Ok(
                (
                    position.closed_as(PositionStatus::Cancelled, position.executed_at),
                    Refund {
                        owner: position.owner,
                        escrow_amount: position.escrow_balance,
                        execution_fee: position.execution_fee_escrow,
                    },
                ),
            )
        },
    }
}

/// Cancels an active position on behalf of its owner.
///
/// The whole escrow and the whole executor reward go back to the owner and
/// the position is closed as `Cancelled`. A closed position is refused with
/// `PositionAlreadyExecuted` or `PositionAlreadyCancelled`, and anyone but
/// the owner with `Unauthorized`; the position then stays as it is.
pub fn handler(position: &mut Position, ctx: &CancelPosition) -> (r: Result<Refund, PyroSwapError>)
    ensures
        match cancelled(*old(position), *ctx) {
            Ok((p, refund)) => r == Ok::<Refund, PyroSwapError>(refund) && *final(position) == p,
            Err(e) => r == Err::<Refund, PyroSwapError>(e) && *final(position) == *old(position),
        },
        old(position).well_formed() ==> final(position).well_formed(),
{
    match position.ensure_active() {
        Ok(()) => {},
        Err(e) => {
            return Err(e);
        },
    }
    if !ctx.owner.same(&position.owner) {
        return Err(PyroSwapError::Unauthorized);
    }
    let refund = Refund {
        owner: position.owner,
        escrow_amount: position.escrow_balance,
        execution_fee: position.execution_fee_escrow,
    };
    position.status = PositionStatus::Cancelled;
    position.escrow_balance = 0;
    position.execution_fee_escrow = 0;
    Ok(refund)
}

} // verus!
