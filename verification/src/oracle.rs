//! The deposit-threshold policy: turning a price-feed reading into the
//! minimum accepted deposit.
//!
//! The feed itself is read by the embedding program; this module gets the
//! reading as plain values, applies the staleness fallback, and converts the
//! fixed USD minimum into native units with integer arithmetic, rounding
//! down and saturating at the largest representable amount.

use vstd::prelude::*;

use crate::errors::ErrorCode;
use crate::{DEFAULT_SOL_PRICE, MAX_PRICE_FEED_AGE, MINIMUM_USD_DEPOSIT};

verus! {

/// One price-feed reading, plus the clock at the time it was taken.
#[derive(Clone, Copy, PartialEq, Eq, Structural, Debug)]
pub struct OracleReading {
    /// The reported USD price of one native unit, scaled by `10^decimals`.
    pub price: i128,
    /// How many decimal places the reported price carries.
    pub decimals: u32,
    /// The clock when the reading was taken, in seconds.
    pub current_timestamp: i64,
    /// When the feed last updated, in seconds.
    pub feed_timestamp: i64,
}

/// Ten to the `e`th power.
pub open spec fn pow10(e: nat) -> int
    decreases e,
{
    if e == 0 {
        1
    } else {
        10 * pow10((e - 1) as nat)
    }
}

/// Largest price scale the converter accepts: `10^(decimals + 1)` must stay
/// multipliable by the USD minimum inside 128 bits.
pub const MAX_PRICE_DECIMALS: u32 = 28;

/// The price a reading is taken at: the reported one, or the fixed fallback
/// when the reading is older than the accepted maximum.
pub open spec fn effective_price(r: OracleReading) -> int {
    if r.current_timestamp - r.feed_timestamp > MAX_PRICE_FEED_AGE {
        DEFAULT_SOL_PRICE as int
    } else {
        r.price as int
    }
}

/// What [`calculate_minimum_sol_deposit`] returns: the fixed USD minimum
/// converted at the effective price into native base units (9 decimals),
/// rounded down and saturated at `u64::MAX`; readings the converter cannot
/// price (a non-positive effective price, or a scale beyond
/// [`MAX_PRICE_DECIMALS`]) are rejected.
pub open spec fn minimum_sol_deposit_spec(r: OracleReading) -> Result<u64, ErrorCode> {
    let price = effective_price(r);
    if price <= 0 || r.decimals > MAX_PRICE_DECIMALS {
        Err(ErrorCode::PriceFeedReadFailed)
    } else {
        let lamports = MINIMUM_USD_DEPOSIT * pow10((r.decimals + 1) as nat) / price;
        if lamports > u64::MAX {
            Ok(u64::MAX)
        } else {
            Ok(lamports as u64)
        }
    }
}

/// Ten to the `e`th power, for the scales the converter accepts.
fn pow10_u128(e: u32) -> (r: u128)
    requires
        e <= MAX_PRICE_DECIMALS + 1,
    ensures
        r as int == pow10(e as nat),
        r <= 100000000000000000000000000000u128,
{
    proof {
        reveal_with_fuel(pow10, 31);
    }
    match e {
        0 => 1,
        1 => 10,
        2 => 100,
        3 => 1000,
        4 => 10000,
        5 => 100000,
        6 => 1000000,
        7 => 10000000,
        8 => 100000000,
        9 => 1000000000,
        10 => 10000000000,
        11 => 100000000000,
        12 => 1000000000000,
        13 => 10000000000000,
        14 => 100000000000000,
        15 => 1000000000000000,
        16 => 10000000000000000,
        17 => 100000000000000000,
        18 => 1000000000000000000,
        19 => 10000000000000000000,
        20 => 100000000000000000000,
        21 => 1000000000000000000000,
        22 => 10000000000000000000000,
        23 => 100000000000000000000000,
        24 => 1000000000000000000000000,
        25 => 10000000000000000000000000,
        26 => 100000000000000000000000000,
        27 => 1000000000000000000000000000,
        28 => 10000000000000000000000000000,
        _ => 100000000000000000000000000000,
    }
}

/// Converts a price-feed reading into the minimum accepted deposit, in
/// native base units.
pub fn calculate_minimum_sol_deposit(reading: &OracleReading) -> (r: Result<u64, ErrorCode>)
    ensures
        r == minimum_sol_deposit_spec(*reading),
{
    // Work in 128 bits so the age subtraction cannot overflow.
    let age: i128 = reading.current_timestamp as i128 - reading.feed_timestamp as i128;
    let sol_price_per_unit: i128 = if age > MAX_PRICE_FEED_AGE as i128 {
        DEFAULT_SOL_PRICE
    } else {
        reading.price
    };
    if sol_price_per_unit <= 0 || reading.decimals > MAX_PRICE_DECIMALS {
        return Err(ErrorCode::PriceFeedReadFailed);
    }
    let scale = pow10_u128(reading.decimals + 1);
    let numerator = (MINIMUM_USD_DEPOSIT as u128) * scale;
    let lamports = numerator / (sol_price_per_unit as u128);
    if lamports > u64::MAX as u128 {
        Ok(u64::MAX)
    } else {
        Ok(lamports as u64)
    }
}

} // verus!
