//! Validation of a Pyth price observation: freshness, sign and confidence.

use vstd::prelude::*;
use vstd::math::abs;
use crate::constants::{BPS_DENOMINATOR, MAX_PRICE_AGE_SLOTS, MIN_PRICE_CONFIDENCE_BPS};
use crate::errors::PyroSwapError;
use crate::math::bps_share;
use crate::state::Address;

verus! {

/// One price as the feed publishes it: `price * 10^expo`, give or take
/// `conf * 10^expo`, at `publish_time`.
#[derive(Clone, Copy, Debug, PartialEq, Eq)]
pub struct PriceData {
    pub price: i64,
    pub conf: u64,
    pub expo: i32,
    pub publish_time: i64,
}

/// The contents of a price feed: its identity, the current price and the
/// moving-average price.
#[derive(Clone, Copy, Debug, PartialEq, Eq)]
pub struct PriceFeedData {
    pub id: Address,
    pub price: PriceData,
    pub ema_price: PriceData,
}

/// A price that has passed validation.
#[derive(Clone, Copy, Debug, PartialEq, Eq)]
pub struct OraclePrice {
    pub price: u64,
    pub exponent: i32,
    pub confidence: u64,
    pub publish_time: i64,
}

/// Whether a price published at `publish_time` lies outside the freshness
/// window around `current_time`.
pub open spec fn is_stale(publish_time: i64, current_time: i64) -> bool {
    abs(publish_time - current_time) > MAX_PRICE_AGE_SLOTS
}

/// The confidence interval in basis points of the price.
pub open spec fn confidence_bps(conf: u64, price: i64) -> int
    recommends
        price > 0,
{
    conf * BPS_DENOMINATOR / (price as int)
}

/// What validation makes of a feed at `current_time`.
pub open spec fn validated_price(feed: PriceFeedData, current_time: i64) -> Result<
    OraclePrice,
    PyroSwapError,
> {
    let p = feed.price;
    if is_stale(p.publish_time, current_time) {
        Err(PyroSwapError::StalePriceData)
    } else if p.price <= 0 {
        Err(PyroSwapError::InvalidOraclePrice)
    } else if confidence_bps(p.conf, p.price) > MIN_PRICE_CONFIDENCE_BPS {
        Err(PyroSwapError::LowPriceConfidence)
    } else {
        Ok(
            OraclePrice {
                price: p.price as u64,
                exponent: p.expo,
                confidence: p.conf,
                publish_time: p.publish_time,
            },
        )
    }
}

/// `PriceFeed::get_price_no_older_than` of pyth-sdk, on a feed rebuilt from
/// its contents. Trusted: the feed's current price comes back unless its
/// publish time lies more than `age` from `current_time`, in either
/// direction. The difference of the two times must fit 64 bits, and its
/// absolute value too.
#[verifier::external_body]
fn price_no_older_than(feed: &PriceFeedData, current_time: i64, age: u64) -> (r: Option<PriceData>)
    requires
        i64::MIN < feed.price.publish_time - current_time <= i64::MAX,
    ensures
        r == if abs(feed.price.publish_time - current_time) > age {
            None
        } else {
            Some(feed.price)
        },
{
    let (p, e) = (feed.price, feed.ema_price);
    let price = pyth_sdk_solana::Price { price: p.price, conf: p.conf, expo: p.expo, publish_time: p.publish_time };
    let ema = pyth_sdk_solana::Price { price: e.price, conf: e.conf, expo: e.expo, publish_time: e.publish_time };
    let id = pyth_sdk_solana::PriceIdentifier::new(feed.id.bytes);
    match pyth_sdk_solana::PriceFeed::new(id, price, ema).get_price_no_older_than(current_time, age) {
        Some(q) => Some(PriceData { price: q.price, conf: q.conf, expo: q.expo, publish_time: q.publish_time }),
        None => None,
    }
}

/// Validates the current price of `feed` at `current_time`.
///
/// The price is refused as stale when it was published more than
/// `MAX_PRICE_AGE_SLOTS` away from `current_time`, as invalid when it is not
/// positive, and as uncertain when its confidence interval exceeds
/// `MIN_PRICE_CONFIDENCE_BPS` basis points of it; in that order.
pub fn get_pyth_price(feed: &PriceFeedData, _current_slot: u64, current_time: i64) -> (r: Result<
    OraclePrice,
    PyroSwapError,
>)
    ensures
        r == validated_price(*feed, current_time),
        is_stale(feed.price.publish_time, current_time) ==> r == Err::<OraclePrice, PyroSwapError>(
            PyroSwapError::StalePriceData,
        ),
        feed.price.price > 0 && confidence_bps(feed.price.conf, feed.price.price)
            > MIN_PRICE_CONFIDENCE_BPS ==> r is Err,
{
    let fresh = match feed.price.publish_time.checked_sub(current_time) {
        Some(d) => if d == i64::MIN {
            None
        } else {
            price_no_older_than(feed, current_time, MAX_PRICE_AGE_SLOTS)
        },
        None => None,
    };
    let price_data = match fresh {
        Some(p) => p,
        None => { return Err(PyroSwapError::StalePriceData); },
    };
    if price_data.price <= 0 {
        return Err(PyroSwapError::InvalidOraclePrice);
    }
    let conf_bps: u128 = (price_data.conf as u128 * BPS_DENOMINATOR as u128) / (price_data.price
        as u128);
    if conf_bps > MIN_PRICE_CONFIDENCE_BPS as u128 {
        return Err(PyroSwapError::LowPriceConfidence);
    }
    Ok(
        OraclePrice {
            price: price_data.price as u64,
            exponent: price_data.expo,
            confidence: price_data.conf,
            publish_time: price_data.publish_time,
        },
    )
}

/// How far a price may lie from `oracle_price` under a tolerance of
/// `max_slippage_bps` basis points.
pub open spec fn slippage_amount(oracle_price: u64, max_slippage_bps: u16) -> int {
    oracle_price * max_slippage_bps / (BPS_DENOMINATOR as int)
}

/// Whether `execution_price` lies within the tolerance around `oracle_price`.
pub open spec fn within_slippage(
    execution_price: u64,
    oracle_price: u64,
    max_slippage_bps: u16,
) -> bool {
    let s = slippage_amount(oracle_price, max_slippage_bps);
    oracle_price - s <= execution_price <= oracle_price + s
}

/// Checks that an execution price agrees with the oracle price up to
/// `max_slippage_bps` basis points in either direction.
pub fn validate_execution_price(
    execution_price: u64,
    oracle_price: u64,
    max_slippage_bps: u16,
) -> (r: Result<(), PyroSwapError>)
    ensures
        within_slippage(execution_price, oracle_price, max_slippage_bps) ==> r == Ok::<
            (),
            PyroSwapError,
        >(()),
        !within_slippage(execution_price, oracle_price, max_slippage_bps) ==> r == Err::<
            (),
            PyroSwapError,
        >(PyroSwapError::SlippageExceeded),
{
    let wide: u128 = bps_share(oracle_price, max_slippage_bps);
    let slippage: u64 = if wide > u64::MAX as u128 {
        u64::MAX
    } else {
        wide as u64
    };
    let min_allowed = oracle_price.saturating_sub(slippage);
    let max_allowed = oracle_price.saturating_add(slippage);
    if execution_price < min_allowed || execution_price > max_allowed {
        return Err(PyroSwapError::SlippageExceeded);
    }
    Ok(())
}

} // verus!
