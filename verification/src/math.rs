//! Basis-point arithmetic in a wide intermediate.

use vstd::prelude::*;
use crate::constants::BPS_DENOMINATOR;

verus! {

/// `bps` basis points of `amount`, rounded down.
pub open spec fn bps_of(amount: u64, bps: u16) -> int {
    amount * bps / (BPS_DENOMINATOR as int)
}

/// The product of a 64-bit and a 16-bit value fits 128 bits with room to spare.
pub proof fn lemma_product_fits(amount: u64, bps: u16)
    ensures
        0 <= amount * bps <= 0xffff_ffff_ffff_ffff * 0xffff,
{
    assert(0 <= amount * bps <= 0xffff_ffff_ffff_ffff * 0xffff) by (nonlinear_arith)
        requires
            0 <= amount <= 0xffff_ffff_ffff_ffff,
            0 <= bps <= 0xffff,
    ;
}

/// A share of at most the whole is at most the amount it is taken from, and
/// a larger share is no smaller.
pub proof fn lemma_bps_of_monotonic(amount: u64, a: u16, b: u16)
    requires
        a <= b,
    ensures
        0 <= bps_of(amount, a) <= bps_of(amount, b),
        b <= BPS_DENOMINATOR ==> bps_of(amount, b) <= amount,
{
    lemma_product_fits(amount, a);
    lemma_product_fits(amount, b);
    assert(amount * a <= amount * b) by (nonlinear_arith)
        requires
            a <= b,
            0 <= amount,
    ;
    vstd::arithmetic::div_mod::lemma_div_is_ordered(amount * a, amount * b, 10000);
    vstd::arithmetic::div_mod::lemma_div_is_ordered(0, amount * a, 10000);
    if b <= BPS_DENOMINATOR {
        assert(amount * b <= amount * 10000) by (nonlinear_arith)
            requires
                b <= 10000,
                0 <= amount,
        ;
        vstd::arithmetic::div_mod::lemma_div_is_ordered(amount * b, amount * 10000, 10000);
        vstd::arithmetic::div_mod::lemma_div_multiples_vanish(amount as int, 10000);
    }
}

/// Computes `bps` basis points of `amount` without overflow.
pub fn bps_share(amount: u64, bps: u16) -> (r: u128)
    ensures
        r == bps_of(amount, bps),
{
    proof {
        lemma_product_fits(amount, bps);
    }
    amount as u128 * bps as u128 / BPS_DENOMINATOR as u128
}

} // verus!
