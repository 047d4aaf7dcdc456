//! Creating and changing the fee policy.

use vstd::prelude::*;
use crate::errors::PyroSwapError;
use crate::state::{check_fee_rates, fees_within_caps, Address, GlobalConfig};

verus! {

/// Who creates the fee policy, and where protocol fees are to go.
#[derive(Clone, Copy, Debug, PartialEq, Eq)]
pub struct Initialize {
    pub admin: Address,
    pub fee_destination: Address,
}

/// Creates the fee policy. Rates above their caps are refused with
/// `InvalidBasisPoints`.
pub fn handler(ctx: &Initialize, protocol_fee_bps: u16, referral_fee_share_bps: u16) -> (r: Result<
    GlobalConfig,
    PyroSwapError,
>)
    ensures
        fees_within_caps(protocol_fee_bps, referral_fee_share_bps) ==> r == Ok::<
            GlobalConfig,
            PyroSwapError,
        >(
            (GlobalConfig {
                admin: ctx.admin,
                fee_destination: ctx.fee_destination,
                protocol_fee_bps,
                referral_fee_share_bps,
            }),
        ),
        !fees_within_caps(protocol_fee_bps, referral_fee_share_bps) ==> r == Err::<
            GlobalConfig,
            PyroSwapError,
        >(PyroSwapError::InvalidBasisPoints),
        r matches Ok(c) ==> c.well_formed(),
{
    if !check_fee_rates(protocol_fee_bps, referral_fee_share_bps) {
        return Err(PyroSwapError::InvalidBasisPoints);
    }
    Ok(
        GlobalConfig {
            admin: ctx.admin,
            fee_destination: ctx.fee_destination,
            protocol_fee_bps,
            referral_fee_share_bps,
        },
    )
}

/// What a change of rates by `caller` makes of `config`.
pub open spec fn updated(
    config: GlobalConfig,
    caller: Address,
    protocol_fee_bps: u16,
    referral_fee_share_bps: u16,
) -> Result<GlobalConfig, PyroSwapError> {
    if caller != config.admin {
        Err(PyroSwapError::Unauthorized)
    } else if !fees_within_caps(protocol_fee_bps, referral_fee_share_bps) {
        Err(PyroSwapError::InvalidBasisPoints)
    } else {
        Ok(GlobalConfig { protocol_fee_bps, referral_fee_share_bps, ..config })
    }
}

/// Changes the rates of the fee policy. Only the policy's admin may do so,
/// and only to rates within the caps; otherwise the policy stays as it is.
pub fn update_fees(
    config: &mut GlobalConfig,
    caller: &Address,
    protocol_fee_bps: u16,
    referral_fee_share_bps: u16,
) -> (r: Result<(), PyroSwapError>)
    ensures
        match updated(*old(config), *caller, protocol_fee_bps, referral_fee_share_bps) {
            Ok(c) => r == Ok::<(), PyroSwapError>(()) && *final(config) == c,
            Err(e) => r == Err::<(), PyroSwapError>(e) && *final(config) == *old(config),
        },
        old(config).well_formed() ==> final(config).well_formed(),
{
    if !caller.same(&config.admin) {
        return Err(PyroSwapError::Unauthorized);
    }
    if !check_fee_rates(protocol_fee_bps, referral_fee_share_bps) {
        return Err(PyroSwapError::InvalidBasisPoints);
    }
    config.protocol_fee_bps = protocol_fee_bps;
    config.referral_fee_share_bps = referral_fee_share_bps;
    Ok(())
}

} // verus!
