//! The Meteora DLMM adapter.

use vstd::prelude::*;
use crate::dex::{build_swap, quote_with_fee, DexAdapter, DexQuote, SwapInstruction};
use crate::errors::PyroSwapError;
use crate::state::DexType;

verus! {

/// The fee Meteora DLMM is assumed to take, in basis points.
pub const METEORA_FEE_BPS: u16 = 20;

/// The price impact Meteora DLMM is assumed to have, in basis points.
pub const METEORA_PRICE_IMPACT_BPS: u16 = 5;

/// How many accounts a Meteora DLMM swap needs at least.
pub const METEORA_MIN_ACCOUNTS: usize = 15;

/// The bytes that open a Meteora DLMM swap payload.
pub open spec fn meteora_discriminator() -> Seq<u8> {
    seq![0x14u8, 0x8eu8, 0x41u8, 0x5cu8, 0x7bu8, 0x8cu8, 0x3au8, 0x9fu8]
}

/// The bytes that close a Meteora DLMM swap payload.
pub open spec fn meteora_trailer() -> Seq<u8> {
    Seq::empty()
}

/// Quotes and builds swaps for Meteora DLMM.
pub struct MeteoraAdapter;

impl DexAdapter for MeteoraAdapter {
    open spec fn dex_type() -> DexType {
        DexType::Meteora
    }

    open spec fn fee_bps() -> u16 {
        METEORA_FEE_BPS
    }

    open spec fn price_impact_bps() -> u16 {
        METEORA_PRICE_IMPACT_BPS
    }

    open spec fn min_accounts() -> nat {
        METEORA_MIN_ACCOUNTS as nat
    }

    open spec fn discriminator() -> Seq<u8> {
        meteora_discriminator()
    }

    open spec fn trailer() -> Seq<u8> {
        meteora_trailer()
    }

    fn get_quote(amount_in: u64, _input_decimals: u8, _output_decimals: u8) -> (r: Result<
        DexQuote,
        PyroSwapError,
    >) {
        quote_with_fee(DexType::Meteora, amount_in, METEORA_FEE_BPS, METEORA_PRICE_IMPACT_BPS)
    }

    fn swap(amount_in: u64, min_amount_out: u64, accounts_len: usize) -> (r: Result<
        SwapInstruction,
        PyroSwapError,
    >) {
        if accounts_len < METEORA_MIN_ACCOUNTS {
            return Err(PyroSwapError::InvalidAccountsLength);
        }
        let discriminator: [u8; 8] = [0x14u8, 0x8eu8, 0x41u8, 0x5cu8, 0x7bu8, 0x8cu8, 0x3au8, 0x9fu8];
        let trailer: [u8; 0] = [];
        assert(discriminator@ =~= meteora_discriminator());
        assert(trailer@ =~= meteora_trailer());
        Ok(
            build_swap(
                DexType::Meteora,
                discriminator.as_slice(),
                amount_in,
                min_amount_out,
                trailer.as_slice(),
            ),
        )
    }
}

/// The active bin and the base fee of a Meteora pair: a fixed estimate,
/// whatever the pair's account holds.
pub fn get_meteora_pool_info(_lb_pair_data: &[u8]) -> (r: Result<(u32, u16), PyroSwapError>)
    ensures
        r == Ok::<(u32, u16), PyroSwapError>((8388608u32, 20u16)),
{
    Ok((8388608u32, 20u16))
}

} // verus!
