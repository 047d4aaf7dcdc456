//! The Raydium adapter.

use vstd::prelude::*;
use crate::dex::{build_swap, quote_with_fee, DexAdapter, DexQuote, SwapInstruction};
use crate::errors::PyroSwapError;
use crate::state::DexType;

verus! {

/// The fee Raydium is assumed to take, in basis points.
pub const RAYDIUM_FEE_BPS: u16 = 25;

/// The price impact Raydium is assumed to have, in basis points.
pub const RAYDIUM_PRICE_IMPACT_BPS: u16 = 10;

/// How many accounts a Raydium swap needs at least.
pub const RAYDIUM_MIN_ACCOUNTS: usize = 19;

/// The bytes that open a Raydium swap payload.
pub open spec fn raydium_discriminator() -> Seq<u8> {
    seq![9u8]
}

/// The bytes that close a Raydium swap payload.
pub open spec fn raydium_trailer() -> Seq<u8> {
    Seq::empty()
}

/// Quotes and builds swaps for Raydium.
pub struct RaydiumAdapter;

impl DexAdapter for RaydiumAdapter {
    open spec fn dex_type() -> DexType {
        DexType::Raydium
    }

    open spec fn fee_bps() -> u16 {
        RAYDIUM_FEE_BPS
    }

    open spec fn price_impact_bps() -> u16 {
        RAYDIUM_PRICE_IMPACT_BPS
    }

    open spec fn min_accounts() -> nat {
        RAYDIUM_MIN_ACCOUNTS as nat
    }

    open spec fn discriminator() -> Seq<u8> {
        raydium_discriminator()
    }

    open spec fn trailer() -> Seq<u8> {
        raydium_trailer()
    }

    fn get_quote(amount_in: u64, _input_decimals: u8, _output_decimals: u8) -> (r: Result<
        DexQuote,
        PyroSwapError,
    >) {
        quote_with_fee(DexType::Raydium, amount_in, RAYDIUM_FEE_BPS, RAYDIUM_PRICE_IMPACT_BPS)
    }

    fn swap(amount_in: u64, min_amount_out: u64, accounts_len: usize) -> (r: Result<
        SwapInstruction,
        PyroSwapError,
    >) {
        if accounts_len < RAYDIUM_MIN_ACCOUNTS {
            return Err(PyroSwapError::InvalidAccountsLength);
        }
        let discriminator: [u8; 1] = [9u8];
        let trailer: [u8; 0] = [];
        assert(discriminator@ =~= raydium_discriminator());
        assert(trailer@ =~= raydium_trailer());
        Ok(
            build_swap(
                DexType::Raydium,
                discriminator.as_slice(),
                amount_in,
                min_amount_out,
                trailer.as_slice(),
            ),
        )
    }
}

/// The reserves of a Raydium pool, coin side first: a fixed estimate,
/// whatever the pool's account holds.
pub fn get_raydium_pool_info(_pool_data: &[u8]) -> (r: Result<(u64, u64), PyroSwapError>)
    ensures
        r == Ok::<(u64, u64), PyroSwapError>((1_000_000_000u64, 100_000_000u64)),
{
    Ok((1_000_000_000u64, 100_000_000u64))
}

} // verus!
