//! The fee engine: how an amount is split into protocol fee, referral fee
//! and what is left.

use vstd::prelude::*;
use crate::constants::BPS_DENOMINATOR;
use crate::errors::PyroSwapError;
use crate::math::{bps_of, bps_share};
use crate::state::GlobalConfig;

verus! {

/// An amount split three ways. The three parts add up to the amount.
#[derive(Clone, Copy, Debug, PartialEq, Eq)]
pub struct FeeSplit {
    pub protocol_fee: u64,
    pub referral_fee: u64,
    pub net_amount: u64,
}

/// The referral fee on `notional`: nothing without a referrer.
pub open spec fn referral_fee_of(notional: u64, referral_fee_bps: Option<u16>) -> int {
    match referral_fee_bps {
        Some(bps) => bps_of(notional, bps),
        None => 0,
    }
}

/// Both fees on `notional` together.
pub open spec fn total_fee_of(
    notional: u64,
    protocol_fee_bps: u16,
    referral_fee_bps: Option<u16>,
) -> int {
    bps_of(notional, protocol_fee_bps) + referral_fee_of(notional, referral_fee_bps)
}

/// What splitting `notional` gives.
pub open spec fn split_spec(
    notional: u64,
    protocol_fee_bps: u16,
    referral_fee_bps: Option<u16>,
) -> Result<FeeSplit, PyroSwapError> {
    if total_fee_of(notional, protocol_fee_bps, referral_fee_bps) > notional {
        Err(PyroSwapError::InsufficientFunds)
    } else {
        Ok(
            FeeSplit {
                protocol_fee: bps_of(notional, protocol_fee_bps) as u64,
                referral_fee: referral_fee_of(notional, referral_fee_bps) as u64,
                net_amount: (notional - total_fee_of(notional, protocol_fee_bps, referral_fee_bps))
                    as u64,
            },
        )
    }
}

/// Splits `notional` into the protocol fee, the referral fee and the rest.
///
/// Each fee is its rate's share of `notional`, rounded down; the referral
/// rate is `None` when there is no referrer, and the referral fee is then
/// zero. Fails with `InsufficientFunds` when the fees exceed `notional`.
pub fn split(notional: u64, protocol_fee_bps: u16, referral_fee_bps: Option<u16>) -> (r: Result<
    FeeSplit,
    PyroSwapError,
>)
    ensures
        r == split_spec(notional, protocol_fee_bps, referral_fee_bps),
        r matches Ok(s) ==> s.protocol_fee + s.referral_fee + s.net_amount == notional,
{
    let protocol_fee: u128 = bps_share(notional, protocol_fee_bps);
    let referral_fee: u128 = match referral_fee_bps {
        Some(bps) => bps_share(notional, bps),
        None => 0,
    };
    proof {
        crate::math::lemma_product_fits(notional, protocol_fee_bps);
        if let Some(bps) = referral_fee_bps {
            crate::math::lemma_product_fits(notional, bps);
        }
    }
    let total: u128 = protocol_fee + referral_fee;
    if total > notional as u128 {
        return Err(PyroSwapError::InsufficientFunds);
    }
    Ok(
        FeeSplit {
            protocol_fee: protocol_fee as u64,
            referral_fee: referral_fee as u64,
            net_amount: (notional as u128 - total) as u64,
        },
    )
}

/// Rates that together take no more than the whole never exceed the amount:
/// the split then succeeds.
pub proof fn lemma_split_succeeds(
    notional: u64,
    protocol_fee_bps: u16,
    referral_fee_bps: Option<u16>,
)
    requires
        protocol_fee_bps + (match referral_fee_bps {
            Some(bps) => bps as int,
            None => 0,
        }) <= BPS_DENOMINATOR,
    ensures
        split_spec(notional, protocol_fee_bps, referral_fee_bps) is Ok,
{
    let r: int = match referral_fee_bps {
        Some(bps) => bps as int,
        None => 0,
    };
    let p = protocol_fee_bps as int;
    assert(notional * p + notional * r <= notional * 10000) by (nonlinear_arith)
        requires
            p + r <= 10000,
            0 <= notional,
    ;
    assert(notional * p >= 0 && notional * r >= 0) by (nonlinear_arith)
        requires
            p >= 0,
            r >= 0,
            0 <= notional,
    ;
    let a = notional * p;
    let b = notional * r;
    assert(a / 10000 + b / 10000 <= (a + b) / 10000) by {
        vstd::arithmetic::div_mod::lemma_fundamental_div_mod(a, 10000);
        vstd::arithmetic::div_mod::lemma_fundamental_div_mod(b, 10000);
        vstd::arithmetic::div_mod::lemma_fundamental_div_mod(a + b, 10000);
        vstd::arithmetic::div_mod::lemma_mod_bound(a, 10000);
        vstd::arithmetic::div_mod::lemma_mod_bound(b, 10000);
        vstd::arithmetic::div_mod::lemma_mod_bound(a + b, 10000);
    }
    vstd::arithmetic::div_mod::lemma_div_is_ordered(a + b, notional * 10000, 10000);
    vstd::arithmetic::div_mod::lemma_div_multiples_vanish(notional as int, 10000);
    assert(notional * 10000 == 10000 * notional) by (nonlinear_arith);
}

/// A fee policy within the caps never takes more than the amount: under it
/// the split succeeds on every amount, with or without a referrer.
pub proof fn lemma_policy_never_overdraws(config: GlobalConfig, notional: u64, has_referrer: bool)
    requires
        config.well_formed(),
    ensures
        split_spec(
            notional,
            config.protocol_fee_bps,
            if has_referrer {
                Some(config.referral_fee_share_bps)
            } else {
                None
            },
        ) is Ok,
{
    lemma_split_succeeds(
        notional,
        config.protocol_fee_bps,
        if has_referrer {
            Some(config.referral_fee_share_bps)
        } else {
            None
        },
    );
}

} // verus!
