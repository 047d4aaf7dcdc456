//! The Orca Whirlpool adapter.

use vstd::prelude::*;
use crate::dex::{build_swap, quote_with_fee, DexAdapter, DexQuote, SwapInstruction};
use crate::errors::PyroSwapError;
use crate::state::DexType;

verus! {

/// The fee Orca Whirlpool is assumed to take, in basis points.
pub const ORCA_FEE_BPS: u16 = 30;

/// The price impact Orca Whirlpool is assumed to have, in basis points.
pub const ORCA_PRICE_IMPACT_BPS: u16 = 8;

/// How many accounts a Orca Whirlpool swap needs at least.
pub const ORCA_MIN_ACCOUNTS: usize = 13;

/// The bytes that open a Orca Whirlpool swap payload.
pub open spec fn orca_discriminator() -> Seq<u8> {
    seq![0xf8u8, 0xc6u8, 0x9eu8, 0x91u8, 0xe1u8, 0x75u8, 0x87u8, 0xc8u8]
}

/// The bytes that close a Orca Whirlpool swap payload.
pub open spec fn orca_trailer() -> Seq<u8> {
    seq![1u8, 0u8, 0u8, 0u8, 0u8, 0u8, 0u8, 0u8, 0u8]
}

/// Quotes and builds swaps for Orca Whirlpool.
pub struct OrcaAdapter;

impl DexAdapter for OrcaAdapter {
    open spec fn dex_type() -> DexType {
        DexType::Orca
    }

    open spec fn fee_bps() -> u16 {
        ORCA_FEE_BPS
    }

    open spec fn price_impact_bps() -> u16 {
        ORCA_PRICE_IMPACT_BPS
    }

    open spec fn min_accounts() -> nat {
        ORCA_MIN_ACCOUNTS as nat
    }

    open spec fn discriminator() -> Seq<u8> {
        orca_discriminator()
    }

    open spec fn trailer() -> Seq<u8> {
        orca_trailer()
    }

    fn get_quote(amount_in: u64, _input_decimals: u8, _output_decimals: u8) -> (r: Result<
        DexQuote,
        PyroSwapError,
    >) {
        quote_with_fee(DexType::Orca, amount_in, ORCA_FEE_BPS, ORCA_PRICE_IMPACT_BPS)
    }

    fn swap(amount_in: u64, min_amount_out: u64, accounts_len: usize) -> (r: Result<
        SwapInstruction,
        PyroSwapError,
    >) {
        if accounts_len < ORCA_MIN_ACCOUNTS {
            return Err(PyroSwapError::InvalidAccountsLength);
        }
        let discriminator: [u8; 8] = [0xf8u8, 0xc6u8, 0x9eu8, 0x91u8, 0xe1u8, 0x75u8, 0x87u8, 0xc8u8];
        let trailer: [u8; 9] = [1u8, 0u8, 0u8, 0u8, 0u8, 0u8, 0u8, 0u8, 0u8];
        assert(discriminator@ =~= orca_discriminator());
        assert(trailer@ =~= orca_trailer());
        Ok(
            build_swap(
                DexType::Orca,
                discriminator.as_slice(),
                amount_in,
                min_amount_out,
                trailer.as_slice(),
            ),
        )
    }
}

/// The square-root price and the fee rate of an Orca Whirlpool: a fixed
/// estimate, whatever the pool's account holds.
pub fn get_orca_whirlpool_info(_whirlpool_data: &[u8]) -> (r: Result<(u128, u16), PyroSwapError>)
    ensures
        r == Ok::<(u128, u16), PyroSwapError>((79228162514264337593543950336u128, 30u16)),
{
    Ok((79228162514264337593543950336u128, 30u16))
}

} // verus!
