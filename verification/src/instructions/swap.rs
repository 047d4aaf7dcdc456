//! A single swap with fees, outside any position.

use vstd::prelude::*;
use crate::dex::{route, routed, SwapInstruction};
use crate::errors::PyroSwapError;
use crate::fees::{split, split_spec, FeeSplit};
use crate::state::{Address, DexType, GlobalConfig};

verus! {

/// The fee policy a swap runs under, who referred it, and how many venue
/// accounts came with it.
#[derive(Clone, Copy, Debug, PartialEq, Eq)]
pub struct Swap {
    pub config: GlobalConfig,
    pub referrer_fee_account: Option<Address>,
    pub remaining_accounts: usize,
}

/// What a swap is to do: the fees to pay first, then the instruction for the
/// venue, which swaps the rest.
#[derive(Debug, PartialEq, Eq)]
pub struct SwapPlan {
    /// Who receives the protocol fee: the fee destination of the policy.
    pub fee_destination: Address,
    /// Who receives the referral fee, if anyone referred the swap.
    pub referrer: Option<Address>,
    pub fees: FeeSplit,
    pub instruction: SwapInstruction,
}

impl Swap {
    /// The referral rate that applies: none without a referrer.
    pub open spec fn referral_rate(self) -> Option<u16> {
        if self.referrer_fee_account is Some {
            Some(self.config.referral_fee_share_bps)
        } else {
            None
        }
    }
}

/// Whether `r` is what a swap of `amount` gives.
pub open spec fn swapped(
    ctx: Swap,
    amount: u64,
    min_amount_out: u64,
    preferred_dex: u8,
    r: Result<SwapPlan, PyroSwapError>,
) -> bool {
    if amount == 0 {
        r == Err::<SwapPlan, PyroSwapError>(PyroSwapError::InvalidAmount)
    } else {
        match split_spec(amount, ctx.config.protocol_fee_bps, ctx.referral_rate()) {
            Err(e) => r == Err::<SwapPlan, PyroSwapError>(e),
            Ok(fees) => match DexType::from_tag_spec(preferred_dex) {
                None => r == Err::<SwapPlan, PyroSwapError>(PyroSwapError::InvalidDexType),
                Some(dex) => match r {
                    Ok(plan) => plan.fee_destination == ctx.config.fee_destination
                        && plan.referrer == ctx.referrer_fee_account && plan.fees == fees
                        && routed(
                        dex,
                        fees.net_amount,
                        min_amount_out,
                        ctx.remaining_accounts,
                        Ok(plan.instruction),
                    ),
                    Err(e) => routed(
                        dex,
                        fees.net_amount,
                        min_amount_out,
                        ctx.remaining_accounts,
                        Err(e),
                    ),
                },
            },
        }
    }
}

/// Plans a swap of `amount` on the venue that `preferred_dex` names.
///
/// The protocol fee, and the referral fee where there is a referrer, come
/// off `amount`; the venue swaps what is left, for at least
/// `min_amount_out`. Refused are, in this order: an amount of zero
/// (`InvalidAmount`), fees above the amount (`InsufficientFunds`), a tag
/// that names no supported venue (`InvalidDexType`), and too few venue
/// accounts (`InvalidAccountsLength`).
pub fn handler(ctx: &Swap, amount: u64, min_amount_out: u64, preferred_dex: u8) -> (r: Result<
    SwapPlan,
    PyroSwapError,
>)
    ensures
        swapped(*ctx, amount, min_amount_out, preferred_dex, r),
{
    if amount == 0 {
        return Err(PyroSwapError::InvalidAmount);
    }
    let referral_rate = if ctx.referrer_fee_account.is_some() {
        Some(ctx.config.referral_fee_share_bps)
    } else {
        None
    };
    let fees = match split(amount, ctx.config.protocol_fee_bps, referral_rate) {
        Ok(f) => f,
        Err(e) => {
            return Err(e);
        },
    };
    let dex = match DexType::from_tag(preferred_dex) {
        Some(d) => d,
        None => {
            return Err(PyroSwapError::InvalidDexType);
        },
    };
    match route(dex, fees.net_amount, min_amount_out, ctx.remaining_accounts) {
        Ok(instruction) => Ok(
            SwapPlan {
                fee_destination: ctx.config.fee_destination,
                referrer: ctx.referrer_fee_account,
                fees,
                instruction,
            },
        ),
        Err(e) => Err(e),
    }
}

} // verus!
