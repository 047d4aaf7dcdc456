//! The data model: identities, the fee policy, and the position with its
//! trigger thresholds.

use vstd::prelude::*;
use crate::constants::{
    BPS_DENOMINATOR, MAX_COMBINED_FEE_BPS, MAX_PROTOCOL_FEE_BPS, MAX_REFERRAL_SHARE_BPS,
    MAX_STOP_LOSS_BPS, MAX_TAKE_PROFIT_BPS, MIN_TAKE_PROFIT_BPS,
};
use crate::errors::PyroSwapError;

verus! {

/// A 32-byte identity: an owner, an asset, a price feed, a fee destination.
#[derive(Clone, Copy, Debug, PartialEq, Eq)]
pub struct Address {
    pub bytes: [u8; 32],
}

impl Address {
    /// Builds an identity from its bytes.
    pub fn new(bytes: [u8; 32]) -> (a: Address)
        ensures
            a.bytes == bytes,
    {
        Address { bytes }
    }

    /// Whether two identities are the same.
    pub fn same(&self, other: &Address) -> (r: bool)
        ensures
            r == (*self == *other),
    {
        let mut i: usize = 0;
        while i < 32
            invariant
                i <= 32,
                forall|j: int| 0 <= j < i ==> self.bytes@[j] == other.bytes@[j],
            decreases 32 - i,
        {
            if self.bytes[i] != other.bytes[i] {
                return false;
            }
            i += 1;
        }
        assert(self.bytes =~= other.bytes);
        true
    }
}

/// The time at which an operation runs.
#[derive(Clone, Copy, Debug, PartialEq, Eq)]
pub struct Clock {
    pub slot: u64,
    pub unix_timestamp: i64,
}

/// The venues a position can name.
#[derive(Clone, Copy, Debug, PartialEq, Eq, Structural)]
pub enum DexType {
    Raydium,
    Orca,
    Meteora,
    PumpFun,
    Phoenix,
    Lifinity,
}

impl DexType {
    /// Whether the router has an adapter for this venue.
    pub open spec fn is_supported(self) -> bool {
        self is Raydium || self is Orca || self is Meteora || self is PumpFun
    }

    /// The venue that a tag names, if it names a supported one.
    pub open spec fn from_tag_spec(tag: u8) -> Option<DexType> {
        if tag == 0 {
            Some(DexType::Raydium)
        } else if tag == 1 {
            Some(DexType::Orca)
        } else if tag == 2 {
            Some(DexType::Meteora)
        } else if tag == 3 {
            Some(DexType::PumpFun)
        } else {
            None
        }
    }

    /// Decodes a venue tag: 0 is Raydium, 1 Orca, 2 Meteora, 3 PumpFun. Any
    /// other tag names no supported venue.
    pub fn from_tag(tag: u8) -> (r: Option<DexType>)
        ensures
            r == Self::from_tag_spec(tag),
            r matches Some(d) ==> d.is_supported(),
    {
        match tag {
            0 => Some(DexType::Raydium),
            1 => Some(DexType::Orca),
            2 => Some(DexType::Meteora),
            3 => Some(DexType::PumpFun),
            _ => None,
        }
    }
}

/// Where a position stands in its life. `Executed` and `Cancelled` are final.
#[derive(Clone, Copy, Debug, PartialEq, Eq, Structural)]
pub enum PositionStatus {
    Active,
    Executed,
    Cancelled,
}

/// The fee policy and who may change it.
#[derive(Clone, Copy, Debug, PartialEq, Eq)]
pub struct GlobalConfig {
    pub admin: Address,
    pub fee_destination: Address,
    pub protocol_fee_bps: u16,
    pub referral_fee_share_bps: u16,
}

/// Whether a pair of fee rates lies within the caps: each within its own,
/// and both together within `MAX_COMBINED_FEE_BPS`.
pub open spec fn fees_within_caps(protocol_fee_bps: u16, referral_fee_share_bps: u16) -> bool {
    &&& protocol_fee_bps <= MAX_PROTOCOL_FEE_BPS
    &&& referral_fee_share_bps <= MAX_REFERRAL_SHARE_BPS
    &&& protocol_fee_bps + referral_fee_share_bps <= MAX_COMBINED_FEE_BPS
}

/// Checks a pair of fee rates against the caps.
pub fn check_fee_rates(protocol_fee_bps: u16, referral_fee_share_bps: u16) -> (ok: bool)
    ensures
        ok == fees_within_caps(protocol_fee_bps, referral_fee_share_bps),
{
    protocol_fee_bps <= MAX_PROTOCOL_FEE_BPS && referral_fee_share_bps <= MAX_REFERRAL_SHARE_BPS
        && protocol_fee_bps + referral_fee_share_bps <= MAX_COMBINED_FEE_BPS
}

impl GlobalConfig {
    /// The policy's invariant: the rates lie within the caps.
    pub open spec fn well_formed(self) -> bool {
        fees_within_caps(self.protocol_fee_bps, self.referral_fee_share_bps)
    }
}

/// One escrowed order.
#[derive(Clone, Copy, Debug, PartialEq, Eq)]
pub struct Position {
    pub owner: Address,
    pub input_mint: Address,
    pub output_mint: Address,
    pub referrer: Option<Address>,
    /// What the owner deposited when the position was opened.
    pub amount_in: u64,
    /// What the escrow holds now.
    pub escrow_balance: u64,
    pub sl_bps: u16,
    pub tp_bps: u16,
    pub entry_price: u64,
    /// The reward reserved for whoever executes the position.
    pub execution_fee_escrow: u64,
    pub oracle_price_feed: Address,
    pub preferred_dex: DexType,
    pub status: PositionStatus,
    pub created_at: i64,
    pub executed_at: Option<i64>,
}

/// The price at or above which take-profit triggers.
pub open spec fn take_profit_price(entry_price: u64, tp_bps: u16) -> int {
    entry_price * (BPS_DENOMINATOR + tp_bps) / (BPS_DENOMINATOR as int)
}

/// The price at or below which stop-loss triggers.
pub open spec fn stop_loss_price(entry_price: u64, sl_bps: u16) -> int {
    entry_price * (BPS_DENOMINATOR - sl_bps) / (BPS_DENOMINATOR as int)
}

/// Whether a pair of trigger offsets lies within the limits.
pub open spec fn triggers_within_limits(sl_bps: u16, tp_bps: u16) -> bool {
    sl_bps <= MAX_STOP_LOSS_BPS && MIN_TAKE_PROFIT_BPS <= tp_bps <= MAX_TAKE_PROFIT_BPS
}

impl Position {
    /// The position's invariant: trigger offsets within their limits, a
    /// supported venue, and nothing left in custody once it is closed.
    pub open spec fn well_formed(self) -> bool {
        &&& triggers_within_limits(self.sl_bps, self.tp_bps)
        &&& self.preferred_dex.is_supported()
        &&& self.status != PositionStatus::Active ==> self.escrow_balance == 0
            && self.execution_fee_escrow == 0
        &&& self.status == PositionStatus::Executed <==> self.executed_at is Some
    }

    /// Whether the position is closed for good.
    pub open spec fn is_closed(self) -> bool {
        self.status != PositionStatus::Active
    }

    /// The position once it is closed as `status`: nothing is left in
    /// custody.
    pub open spec fn closed_as(self, status: PositionStatus, executed_at: Option<i64>) -> Position {
        Position { status, executed_at, escrow_balance: 0, execution_fee_escrow: 0, ..self }
    }

    /// The error that a closed position answers every operation with; `None`
    /// while the position is active.
    pub open spec fn closed_error(self) -> Option<PyroSwapError> {
        match self.status {
            PositionStatus::Active => None,
            PositionStatus::Executed => Some(PyroSwapError::PositionAlreadyExecuted),
            PositionStatus::Cancelled => Some(PyroSwapError::PositionAlreadyCancelled),
        }
    }

    /// Refuses a closed position.
    pub fn ensure_active(&self) -> (r: Result<(), PyroSwapError>)
        ensures
            match self.closed_error() {
                Some(e) => r == Err::<(), PyroSwapError>(e),
                None => r == Ok::<(), PyroSwapError>(()),
            },
    {
        match self.status {
            PositionStatus::Active => Ok(()),
            PositionStatus::Executed => Err(PyroSwapError::PositionAlreadyExecuted),
            PositionStatus::Cancelled => Err(PyroSwapError::PositionAlreadyCancelled),
        }
    }

    /// Whether the take-profit threshold can be computed in 64 bits.
    pub open spec fn take_profit_fits(self) -> bool {
        self.entry_price * (BPS_DENOMINATOR + self.tp_bps) <= u64::MAX
    }

    /// Whether the stop-loss threshold can be computed in 64 bits.
    pub open spec fn stop_loss_fits(self) -> bool {
        self.sl_bps <= BPS_DENOMINATOR && self.entry_price * (BPS_DENOMINATOR - self.sl_bps)
            <= u64::MAX
    }

    /// Whether both trigger thresholds can be computed in 64 bits.
    pub open spec fn triggers_fit(self) -> bool {
        self.take_profit_fits() && self.stop_loss_fits()
    }

    /// Whether `current_price` has reached the take-profit threshold of an
    /// active position.
    pub open spec fn take_profit_triggered(self, current_price: u64) -> bool {
        self.status == PositionStatus::Active && current_price >= take_profit_price(
            self.entry_price,
            self.tp_bps,
        )
    }

    /// Whether `current_price` has fallen to the stop-loss threshold of an
    /// active position.
    pub open spec fn stop_loss_triggered(self, current_price: u64) -> bool {
        self.status == PositionStatus::Active && current_price <= stop_loss_price(
            self.entry_price,
            self.sl_bps,
        )
    }

    /// Whether `current_price` triggers the position, or `MathOverflow` when
    /// a threshold cannot be computed in 64 bits.
    pub open spec fn trigger_outcome(self, current_price: u64) -> Result<bool, PyroSwapError> {
        if !self.triggers_fit() {
            Err(PyroSwapError::MathOverflow)
        } else {
            Ok(
                current_price >= take_profit_price(self.entry_price, self.tp_bps) || current_price
                    <= stop_loss_price(self.entry_price, self.sl_bps),
            )
        }
    }

    /// Take-profit check. The threshold is computed in 64 bits, so an active
    /// position whose threshold does not fit is left out.
    pub fn is_take_profit_triggered(&self, current_price: u64) -> (r: bool)
        requires
            self.status == PositionStatus::Active ==> self.take_profit_fits(),
        ensures
            r == self.take_profit_triggered(current_price),
    {
        if self.status != PositionStatus::Active {
            return false;
        }
        let tp_price = self.entry_price * (BPS_DENOMINATOR + self.tp_bps as u64) / BPS_DENOMINATOR;
        current_price >= tp_price
    }

    /// Stop-loss check. The threshold is computed in 64 bits, so an active
    /// position whose threshold does not fit is left out.
    pub fn is_stop_loss_triggered(&self, current_price: u64) -> (r: bool)
        requires
            self.status == PositionStatus::Active ==> self.stop_loss_fits(),
        ensures
            r == self.stop_loss_triggered(current_price),
    {
        if self.status != PositionStatus::Active {
            return false;
        }
        let sl_price = self.entry_price * (BPS_DENOMINATOR - self.sl_bps as u64) / BPS_DENOMINATOR;
        current_price <= sl_price
    }

    /// Whether either trigger holds. Stop-loss is looked at only when
    /// take-profit does not hold.
    pub fn should_execute(&self, current_price: u64) -> (r: bool)
        requires
            self.status == PositionStatus::Active ==> self.take_profit_fits(),
            self.status == PositionStatus::Active && !self.take_profit_triggered(current_price)
                ==> self.stop_loss_fits(),
        ensures
            r == (self.take_profit_triggered(current_price) || self.stop_loss_triggered(
                current_price,
            )),
    {
        self.is_take_profit_triggered(current_price) || self.is_stop_loss_triggered(current_price)
    }

    /// Computes both thresholds in 64 bits and compares `current_price` with
    /// them, whatever the position's status.
    pub fn check_trigger(&self, current_price: u64) -> (r: Result<bool, PyroSwapError>)
        ensures
            r == self.trigger_outcome(current_price),
    {
        if self.sl_bps as u64 > BPS_DENOMINATOR {
            return Err(PyroSwapError::MathOverflow);
        }
        let tp_scaled = match self.entry_price.checked_mul(BPS_DENOMINATOR + self.tp_bps as u64) {
            Some(v) => v,
            None => {
                return Err(PyroSwapError::MathOverflow);
            },
        };
        let sl_scaled = match self.entry_price.checked_mul(BPS_DENOMINATOR - self.sl_bps as u64) {
            Some(v) => v,
            None => {
                return Err(PyroSwapError::MathOverflow);
            },
        };
        Ok(
            current_price >= tp_scaled / BPS_DENOMINATOR || current_price <= sl_scaled
                / BPS_DENOMINATOR,
        )
    }
}

} // verus!
