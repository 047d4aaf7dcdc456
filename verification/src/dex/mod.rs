//! Venue adapters and the router that picks among them.

pub mod meteora;
pub mod orca;
pub mod pumpfun;
pub mod raydium;

use vstd::prelude::*;
use vstd::bytes::{spec_u64_to_le_bytes, u64_to_le_bytes};
use crate::constants::BPS_DENOMINATOR;
use crate::errors::PyroSwapError;
use crate::state::DexType;
use crate::dex::meteora::MeteoraAdapter;
use crate::dex::orca::OrcaAdapter;
use crate::dex::pumpfun::PumpFunAdapter;
use crate::dex::raydium::RaydiumAdapter;

verus! {

/// What a venue estimates for a swap.
#[derive(Clone, Copy, Debug, PartialEq, Eq)]
pub struct DexQuote {
    pub dex_type: DexType,
    pub amount_out: u64,
    pub price_impact_bps: u16,
    pub fee_bps: u16,
}

/// A swap instruction for a venue, ready to be sent to it.
#[derive(Debug, PartialEq, Eq)]
pub struct SwapInstruction {
    pub dex_type: DexType,
    pub amount_in: u64,
    pub min_amount_out: u64,
    /// The instruction's payload as the venue reads it.
    pub data: Vec<u8>,
}

/// What is left of `amount_in` after a venue fee of `fee_bps` basis points.
pub open spec fn amount_after_fee(amount_in: u64, fee_bps: u16) -> int {
    amount_in * (BPS_DENOMINATOR - fee_bps) / (BPS_DENOMINATOR as int)
}

/// Whether the quote for `amount_in` can be computed in 64 bits.
pub open spec fn quote_fits(amount_in: u64, fee_bps: u16) -> bool {
    amount_in * (BPS_DENOMINATOR - fee_bps) <= u64::MAX
}

/// The payload of a swap: the venue's discriminator, both amounts in
/// little-endian order, and the venue's trailing bytes.
pub open spec fn swap_payload(
    discriminator: Seq<u8>,
    amount_in: u64,
    min_amount_out: u64,
    trailer: Seq<u8>,
) -> Seq<u8> {
    discriminator + spec_u64_to_le_bytes(amount_in) + spec_u64_to_le_bytes(min_amount_out)
        + trailer
}

/// One trading venue behind a uniform interface.
pub trait DexAdapter {
    /// The venue this adapter speaks to.
    spec fn dex_type() -> DexType;

    /// The fee the venue is assumed to take, in basis points.
    spec fn fee_bps() -> u16;

    /// The price impact the venue is assumed to have, in basis points.
    spec fn price_impact_bps() -> u16;

    /// How many accounts the venue's swap needs at least.
    spec fn min_accounts() -> nat;

    /// The bytes that open the venue's swap payload.
    spec fn discriminator() -> Seq<u8>;

    /// The bytes that close the venue's swap payload.
    spec fn trailer() -> Seq<u8>;

    /// Estimates the output of swapping `amount_in`: the amount less the
    /// venue's fee. Fails with `MathOverflow` when that cannot be computed in
    /// 64 bits.
    fn get_quote(amount_in: u64, input_decimals: u8, output_decimals: u8) -> (r: Result<
        DexQuote,
        PyroSwapError,
    >)
        ensures
            quote_fits(amount_in, Self::fee_bps()) ==> r == Ok::<DexQuote, PyroSwapError>(
                (DexQuote {
                    dex_type: Self::dex_type(),
                    amount_out: amount_after_fee(amount_in, Self::fee_bps()) as u64,
                    price_impact_bps: Self::price_impact_bps(),
                    fee_bps: Self::fee_bps(),
                }),
            ),
            !quote_fits(amount_in, Self::fee_bps()) ==> r == Err::<DexQuote, PyroSwapError>(
                PyroSwapError::MathOverflow,
            ),
    ;

    /// Builds the venue's swap instruction. Fails with
    /// `InvalidAccountsLength` when fewer than `min_accounts` accounts are at
    /// hand.
    fn swap(amount_in: u64, min_amount_out: u64, accounts_len: usize) -> (r: Result<
        SwapInstruction,
        PyroSwapError,
    >)
        ensures
            accounts_len < Self::min_accounts() ==> r == Err::<SwapInstruction, PyroSwapError>(
                PyroSwapError::InvalidAccountsLength,
            ),
            accounts_len >= Self::min_accounts() ==> (r matches Ok(ix) && ix.dex_type
                == Self::dex_type() && ix.amount_in == amount_in && ix.min_amount_out
                == min_amount_out && ix.data@ == swap_payload(
                Self::discriminator(),
                amount_in,
                min_amount_out,
                Self::trailer(),
            )),
    ;
}

/// The quote of a venue with the given fee and price impact. A fee above the
/// whole is refused with `InvalidBasisPoints`; an amount whose quote cannot be
/// computed in 64 bits with `MathOverflow`.
pub fn quote_with_fee(dex_type: DexType, amount_in: u64, fee_bps: u16, price_impact_bps: u16) -> (r:
    Result<DexQuote, PyroSwapError>)
    ensures
        fee_bps > BPS_DENOMINATOR ==> r == Err::<DexQuote, PyroSwapError>(
            PyroSwapError::InvalidBasisPoints,
        ),
        fee_bps <= BPS_DENOMINATOR && quote_fits(amount_in, fee_bps) ==> r == Ok::<
            DexQuote,
            PyroSwapError,
        >(
            (DexQuote {
                dex_type,
                amount_out: amount_after_fee(amount_in, fee_bps) as u64,
                price_impact_bps,
                fee_bps,
            }),
        ),
        fee_bps <= BPS_DENOMINATOR && !quote_fits(amount_in, fee_bps) ==> r == Err::<
            DexQuote,
            PyroSwapError,
        >(PyroSwapError::MathOverflow),
{
    if fee_bps as u64 > BPS_DENOMINATOR {
        return Err(PyroSwapError::InvalidBasisPoints);
    }
    match amount_in.checked_mul(BPS_DENOMINATOR - fee_bps as u64) {
        Some(scaled) => Ok(
            DexQuote { dex_type, amount_out: scaled / BPS_DENOMINATOR, price_impact_bps, fee_bps },
        ),
        None => Err(PyroSwapError::MathOverflow),
    }
}

/// Assembles a swap instruction from the parts of its payload.
pub fn build_swap(
    dex_type: DexType,
    discriminator: &[u8],
    amount_in: u64,
    min_amount_out: u64,
    trailer: &[u8],
) -> (ix: SwapInstruction)
    ensures
        ix.dex_type == dex_type,
        ix.amount_in == amount_in,
        ix.min_amount_out == min_amount_out,
        ix.data@ == swap_payload(discriminator@, amount_in, min_amount_out, trailer@),
{
    let mut data: Vec<u8> = Vec::new();
    let mut i: usize = 0;
    while i < discriminator.len()
        invariant
            i <= discriminator@.len(),
            data@ == discriminator@.subrange(0, i as int),
        decreases discriminator@.len() - i,
    {
        data.push(discriminator[i]);
        i += 1;
        assert(data@ =~= discriminator@.subrange(0, i as int));
    }
    assert(data@ =~= discriminator@);
    let mut amount_bytes = u64_to_le_bytes(amount_in);
    data.append(&mut amount_bytes);
    let mut min_bytes = u64_to_le_bytes(min_amount_out);
    data.append(&mut min_bytes);
    let ghost head = data@;
    let mut j: usize = 0;
    while j < trailer.len()
        invariant
            j <= trailer@.len(),
            data@ == head + trailer@.subrange(0, j as int),
        decreases trailer@.len() - j,
    {
        data.push(trailer[j]);
        j += 1;
        assert(data@ =~= head + trailer@.subrange(0, j as int));
    }
    assert(trailer@.subrange(0, j as int) =~= trailer@);
    SwapInstruction { dex_type, amount_in, min_amount_out, data }
}

/// Whether `i` is the place of the first quote with the largest output.
pub open spec fn is_first_best(quotes: Seq<DexQuote>, i: int) -> bool {
    &&& 0 <= i < quotes.len()
    &&& forall|j: int| 0 <= j < quotes.len() ==> quotes[j].amount_out <= quotes[i].amount_out
    &&& forall|j: int| 0 <= j < i ==> quotes[j].amount_out < quotes[i].amount_out
}

/// Picks the quote with the largest output, the first of them when several
/// tie. Of no quotes none is picked.
pub fn get_best_quote(quotes: Vec<DexQuote>) -> (r: Option<DexQuote>)
    ensures
        quotes@.len() == 0 <==> r is None,
        r matches Some(q) ==> exists|i: int| is_first_best(quotes@, i) && quotes@[i] == q,
{
    if quotes.len() == 0 {
        return None;
    }
    let mut best: usize = 0;
    let mut k: usize = 1;
    while k < quotes.len()
        invariant
            1 <= k <= quotes@.len(),
            best < k,
            forall|j: int| 0 <= j < k ==> quotes@[j].amount_out <= quotes@[best as int].amount_out,
            forall|j: int| 0 <= j < best ==> quotes@[j].amount_out < quotes@[best as int].amount_out,
        decreases quotes@.len() - k,
    {
        if quotes[k].amount_out > quotes[best].amount_out {
            best = k;
        }
        k += 1;
    }
    assert(is_first_best(quotes@, best as int));
    Some(quotes[best])
}

/// The share of the expected output that a swap fell short by, in basis
/// points.
pub open spec fn price_impact(amount_out: u64, expected_out: u64) -> int {
    if expected_out == 0 {
        BPS_DENOMINATOR as int
    } else if amount_out < expected_out {
        (expected_out - amount_out) * BPS_DENOMINATOR / (expected_out as int)
    } else {
        0
    }
}

/// Price impact in basis points: the whole where nothing was expected, none
/// where the output meets the expectation, else the shortfall's share of the
/// expectation.
pub fn calculate_price_impact(_amount_in: u64, amount_out: u64, expected_out: u64) -> (r: u16)
    ensures
        r == price_impact(amount_out, expected_out),
        r <= BPS_DENOMINATOR,
{
    if expected_out == 0 {
        return 10000;
    }
    let diff: u64 = if amount_out < expected_out {
        expected_out - amount_out
    } else {
        0
    };
    proof {
        assert(diff * 10000 <= expected_out * 10000) by (nonlinear_arith)
            requires
                diff <= expected_out,
        ;
        vstd::arithmetic::div_mod::lemma_div_is_ordered(
            diff * 10000,
            expected_out * 10000,
            expected_out as int,
        );
        vstd::arithmetic::div_mod::lemma_div_multiples_vanish(10000, expected_out as int);
        assert(expected_out * 10000 == 10000 * expected_out) by (nonlinear_arith);
        vstd::arithmetic::div_mod::lemma_div_is_ordered(0, diff * 10000, expected_out as int);
    }
    ((diff as u128 * BPS_DENOMINATOR as u128) / expected_out as u128) as u16
}

/// What routing a swap to `dex_type` gives.
pub open spec fn routed(
    dex_type: DexType,
    amount_in: u64,
    min_amount_out: u64,
    accounts_len: usize,
    r: Result<SwapInstruction, PyroSwapError>,
) -> bool {
    if !dex_type.is_supported() {
        r == Err::<SwapInstruction, PyroSwapError>(PyroSwapError::InvalidDexType)
    } else if accounts_len < venue_min_accounts(dex_type) {
        r == Err::<SwapInstruction, PyroSwapError>(PyroSwapError::InvalidAccountsLength)
    } else {
        r matches Ok(ix) && ix.dex_type == dex_type && ix.amount_in == amount_in
            && ix.min_amount_out == min_amount_out && ix.data@ == venue_payload(
            dex_type,
            amount_in,
            min_amount_out,
        )
    }
}

/// How many accounts the swap of a supported venue needs at least.
pub open spec fn venue_min_accounts(dex_type: DexType) -> nat {
    match dex_type {
        DexType::Raydium => RaydiumAdapter::min_accounts(),
        DexType::Orca => OrcaAdapter::min_accounts(),
        DexType::Meteora => MeteoraAdapter::min_accounts(),
        _ => PumpFunAdapter::min_accounts(),
    }
}

/// The swap payload of a supported venue.
pub open spec fn venue_payload(dex_type: DexType, amount_in: u64, min_amount_out: u64) -> Seq<u8> {
    match dex_type {
        DexType::Raydium => swap_payload(
            RaydiumAdapter::discriminator(),
            amount_in,
            min_amount_out,
            RaydiumAdapter::trailer(),
        ),
        DexType::Orca => swap_payload(
            OrcaAdapter::discriminator(),
            amount_in,
            min_amount_out,
            OrcaAdapter::trailer(),
        ),
        DexType::Meteora => swap_payload(
            MeteoraAdapter::discriminator(),
            amount_in,
            min_amount_out,
            MeteoraAdapter::trailer(),
        ),
        _ => swap_payload(
            PumpFunAdapter::discriminator(),
            amount_in,
            min_amount_out,
            PumpFunAdapter::trailer(),
        ),
    }
}

/// Hands a swap to the adapter of `dex_type`. A venue without an adapter is
/// refused with `InvalidDexType`.
pub fn route(dex_type: DexType, amount_in: u64, min_amount_out: u64, accounts_len: usize) -> (r:
    Result<SwapInstruction, PyroSwapError>)
    ensures
        routed(dex_type, amount_in, min_amount_out, accounts_len, r),
{
    match dex_type {
        DexType::Raydium => RaydiumAdapter::swap(amount_in, min_amount_out, accounts_len),
        DexType::Orca => OrcaAdapter::swap(amount_in, min_amount_out, accounts_len),
        DexType::Meteora => MeteoraAdapter::swap(amount_in, min_amount_out, accounts_len),
        DexType::PumpFun => PumpFunAdapter::swap(amount_in, min_amount_out, accounts_len),
        _ => Err(PyroSwapError::InvalidDexType),
    }
}

} // verus!
