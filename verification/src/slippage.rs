//! The least output a swap must give: the oracle's valuation of the input,
//! less the slippage tolerance.

use vstd::prelude::*;
use vstd::arithmetic::div_mod::{lemma_basic_div, lemma_div_denominator, lemma_small_div_converse};
use vstd::arithmetic::power::{lemma_pow0, lemma_pow_adds, lemma_pow1, lemma_pow_increases,
    lemma_pow_positive, pow};
use crate::constants::{BPS_DENOMINATOR, MAX_SLIPPAGE_BPS};
use crate::errors::PyroSwapError;
use crate::oracle::pyth::OraclePrice;

verus! {

/// The value of `amount_in` at `price * 10^exponent`, rounded down.
pub open spec fn expected_output(amount_in: u64, price: u64, exponent: i32) -> int {
    if exponent >= 0 {
        amount_in * price * pow(10, exponent as nat)
    } else {
        (amount_in * price) / pow(10, (-exponent) as nat)
    }
}

/// What is left of `expected` after giving up `slippage_bps` basis points.
pub open spec fn after_slippage(expected: int, slippage_bps: u16) -> int {
    expected * (BPS_DENOMINATOR - slippage_bps) / (BPS_DENOMINATOR as int)
}

/// The least acceptable output for `amount_in` at `price`, or why there is
/// none.
pub open spec fn min_output(amount_in: u64, price: OraclePrice, slippage_bps: u16) -> Result<
    u64,
    PyroSwapError,
> {
    let expected = expected_output(amount_in, price.price, price.exponent);
    if slippage_bps > MAX_SLIPPAGE_BPS {
        Err(PyroSwapError::InvalidBasisPoints)
    } else if expected > u64::MAX {
        Err(PyroSwapError::MathOverflow)
    } else {
        Ok(after_slippage(expected, slippage_bps) as u64)
    }
}

proof fn lemma_pow10_step(k: nat)
    ensures
        pow(10, k + 1) == pow(10, k) * 10,
        pow(10, k) > 0,
{
    lemma_pow_adds(10, k, 1);
    lemma_pow1(10);
    lemma_pow_positive(10, k);
}

/// Values `amount_in` at `price`: `Some` of the value when it fits 64 bits.
pub fn expected_amount_out(amount_in: u64, price: &OraclePrice) -> (r: Option<u64>)
    ensures
        r == if expected_output(amount_in, price.price, price.exponent) <= u64::MAX {
            Some(expected_output(amount_in, price.price, price.exponent) as u64)
        } else {
            None
        },
        0 <= expected_output(amount_in, price.price, price.exponent),
{
    let ghost product: int = amount_in * price.price;
    assert(0 <= product <= 0xffff_ffff_ffff_ffff * 0xffff_ffff_ffff_ffff) by (nonlinear_arith)
        requires
            product == amount_in * price.price,
            0 <= amount_in <= 0xffff_ffff_ffff_ffff,
            0 <= price.price <= 0xffff_ffff_ffff_ffff,
    ;
    let mut value: u128 = amount_in as u128 * price.price as u128;
    let exponent: i64 = price.exponent as i64;
    proof {
        lemma_pow0(10);
    }
    if exponent >= 0 {
        if value == 0 {
            assert(product * pow(10, exponent as nat) == 0) by (nonlinear_arith)
                requires
                    product == 0,
            ;
            return Some(0);
        }
        let mut k: i64 = 0;
        while k < exponent
            invariant
                0 <= k <= exponent,
                exponent == price.exponent,
                product == amount_in * price.price,
                0 < product,
                value == product * pow(10, k as nat),
            decreases exponent - k,
        {
            if value > u64::MAX as u128 {
                proof {
                    lemma_pow_increases(10, k as nat, exponent as nat);
                    assert(product * pow(10, k as nat) <= product * pow(10, exponent as nat))
                        by (nonlinear_arith)
                        requires
                            0 < product,
                            pow(10, k as nat) <= pow(10, exponent as nat),
                    ;
                }
                return None;
            }
            proof {
                lemma_pow10_step(k as nat);
                assert(product * (pow(10, k as nat) * 10) == (product * pow(10, k as nat)) * 10)
                    by (nonlinear_arith);
            }
            value = value * 10;
            k += 1;
        }
        if value > u64::MAX as u128 {
            None
        } else {
            Some(value as u64)
        }
    } else {
        let digits: i64 = -exponent;
        let mut k: i64 = 0;
        while k < digits && value > 0
            invariant
                0 <= k <= digits,
                digits == -price.exponent,
                product == amount_in * price.price,
                0 <= product,
                value == product / pow(10, k as nat),
            decreases digits - k,
        {
            proof {
                lemma_pow10_step(k as nat);
                lemma_div_denominator(product, pow(10, k as nat), 10);
            }
            value = value / 10;
            k += 1;
        }
        proof {
            if k < digits {
                lemma_pow_positive(10, k as nat);
                lemma_pow_positive(10, digits as nat);
                lemma_small_div_converse(product, pow(10, k as nat));
                lemma_pow_increases(10, k as nat, digits as nat);
                lemma_basic_div(product, pow(10, digits as nat));
            }
        }
        if value > u64::MAX as u128 {
            None
        } else {
            Some(value as u64)
        }
    }
}

/// The least output to accept for `amount_in` at the validated `price`.
///
/// The input is valued at `price.price * 10^price.exponent` and
/// `slippage_bps` basis points are given up, both rounded down. A tolerance
/// above `MAX_SLIPPAGE_BPS` is refused with `InvalidBasisPoints`; a valuation
/// that does not fit 64 bits with `MathOverflow`.
pub fn min_amount_out(amount_in: u64, price: &OraclePrice, slippage_bps: u16) -> (r: Result<
    u64,
    PyroSwapError,
>)
    ensures
        r == min_output(amount_in, *price, slippage_bps),
        r matches Ok(m) ==> m <= expected_output(amount_in, price.price, price.exponent),
{
    if slippage_bps > MAX_SLIPPAGE_BPS {
        return Err(PyroSwapError::InvalidBasisPoints);
    }
    let expected: u64 = match expected_amount_out(amount_in, price) {
        Some(e) => e,
        None => { return Err(PyroSwapError::MathOverflow); },
    };
    let keep: u16 = 10000 - slippage_bps;
    proof {
        crate::math::lemma_bps_of_monotonic(expected, keep, keep);
        assert(expected * keep == expected * (BPS_DENOMINATOR - slippage_bps)) by (nonlinear_arith)
            requires
                keep == BPS_DENOMINATOR - slippage_bps,
        ;
    }
    Ok(crate::math::bps_share(expected, keep) as u64)
}

} // verus!
