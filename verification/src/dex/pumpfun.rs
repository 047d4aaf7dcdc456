//! The Pump.fun adapter.

use vstd::prelude::*;
use crate::dex::{build_swap, quote_with_fee, DexAdapter, DexQuote, SwapInstruction};
use crate::errors::PyroSwapError;
use crate::state::DexType;

verus! {

/// The fee Pump.fun is assumed to take, in basis points.
pub const PUMPFUN_FEE_BPS: u16 = 100;

/// The price impact Pump.fun is assumed to have, in basis points.
pub const PUMPFUN_PRICE_IMPACT_BPS: u16 = 50;

/// How many accounts a Pump.fun swap needs at least.
pub const PUMPFUN_MIN_ACCOUNTS: usize = 12;

/// The bytes that open a Pump.fun swap payload.
pub open spec fn pumpfun_discriminator() -> Seq<u8> {
    seq![0x66u8, 0x06u8, 0x3du8, 0x12u8, 0x01u8, 0xdau8, 0xebu8, 0xeau8]
}

/// The bytes that close a Pump.fun swap payload.
pub open spec fn pumpfun_trailer() -> Seq<u8> {
    Seq::empty()
}

/// Quotes and builds swaps for Pump.fun.
pub struct PumpFunAdapter;

impl DexAdapter for PumpFunAdapter {
    open spec fn dex_type() -> DexType {
        DexType::PumpFun
    }

    open spec fn fee_bps() -> u16 {
        PUMPFUN_FEE_BPS
    }

    open spec fn price_impact_bps() -> u16 {
        PUMPFUN_PRICE_IMPACT_BPS
    }

    open spec fn min_accounts() -> nat {
        PUMPFUN_MIN_ACCOUNTS as nat
    }

    open spec fn discriminator() -> Seq<u8> {
        pumpfun_discriminator()
    }

    open spec fn trailer() -> Seq<u8> {
        pumpfun_trailer()
    }

    fn get_quote(amount_in: u64, _input_decimals: u8, _output_decimals: u8) -> (r: Result<
        DexQuote,
        PyroSwapError,
    >) {
        quote_with_fee(DexType::PumpFun, amount_in, PUMPFUN_FEE_BPS, PUMPFUN_PRICE_IMPACT_BPS)
    }

    fn swap(amount_in: u64, min_amount_out: u64, accounts_len: usize) -> (r: Result<
        SwapInstruction,
        PyroSwapError,
    >) {
        if accounts_len < PUMPFUN_MIN_ACCOUNTS {
            return Err(PyroSwapError::InvalidAccountsLength);
        }
        let discriminator: [u8; 8] = [0x66u8, 0x06u8, 0x3du8, 0x12u8, 0x01u8, 0xdau8, 0xebu8, 0xeau8];
        let trailer: [u8; 0] = [];
        assert(discriminator@ =~= pumpfun_discriminator());
        assert(trailer@ =~= pumpfun_trailer());
        Ok(
            build_swap(
                DexType::PumpFun,
                discriminator.as_slice(),
                amount_in,
                min_amount_out,
                trailer.as_slice(),
            ),
        )
    }
}

/// The virtual token reserves, virtual SOL reserves and real token reserves
/// of a Pump.fun bonding curve: a fixed estimate, whatever the curve's
/// account holds.
pub fn get_pumpfun_curve_info(_bonding_curve_data: &[u8]) -> (r: Result<(u64, u64, u64), PyroSwapError>)
    ensures
        r == Ok::<(u64, u64, u64), PyroSwapError>((1_000_000_000_000u64, 30_000_000_000u64, 800_000_000_000u64)),
{
    Ok((1_000_000_000_000u64, 30_000_000_000u64, 800_000_000_000u64))
}

} // verus!
