//! Conversions between the units of the feed and the units of the record.
//!
//! Speed and altitude are multiplied by an exact decimal factor and rounded
//! to the nearest integer, halves away from zero. The climb rate is the
//! exact product: it is not rounded.

use vstd::prelude::*;
use crate::decimal::{clamp, pow10, round_div, Decimal, MAX_MANTISSA, MAX_SCALE};

verus! {

/// Knots to km/h: times 1.852.
pub open spec fn knots_to_kmh_spec(knots: int) -> int {
    round_div(knots * 1852, 1000)
}

/// km/h to knots: divided by 1.852.
pub open spec fn kmh_to_knots_spec(kmh: int) -> int {
    round_div(kmh * 1000, 1852)
}

/// Feet to metres: times 0.3048.
pub open spec fn feet_to_meters_spec(feet: int) -> int {
    round_div(feet * 3048, 10_000)
}

/// Metres to feet: divided by 0.3048.
pub open spec fn meters_to_feet_spec(meters: int) -> int {
    round_div(meters * 10_000, 3048)
}

/// Feet per minute to metres per second: times 0.00508, exactly. The
/// mantissa is multiplied by 508 and the point moves five places. `None`
/// where a `Decimal` cannot hold the product.
pub open spec fn climb_rate_spec(fpm: Decimal) -> Option<Decimal> {
    if fpm.mantissa * 508 <= MAX_MANTISSA && fpm.scale + 5 <= MAX_SCALE {
        Some(
            Decimal {
                negative: fpm.negative,
                mantissa: (fpm.mantissa * 508) as u64,
                scale: (fpm.scale + 5) as u8,
            },
        )
    } else {
        None
    }
}

/// A speed in knots as km/h, held to the range of `u32`.
pub fn knots_to_kmh(knots: u64) -> (r: u32)
    ensures
        r == clamp(knots_to_kmh_spec(knots as int), 0, u32::MAX as int),
{
    let q: u128 = (2 * ((knots as u128) * 1852) + 1000) / 2000;
    if q > u32::MAX as u128 {
        u32::MAX
    } else {
        q as u32
    }
}

/// An altitude in feet as metres, held to the range of `i32`.
pub fn feet_to_meters(feet: Decimal) -> (r: i32)
    requires
        feet.wf(),
    ensures
        r == clamp(feet.scaled(3048, 10_000), i32::MIN as int, i32::MAX as int),
{
    let m: i64 = feet.scale_round(3048, 10_000);
    if m < i32::MIN as i64 {
        i32::MIN
    } else if m > i32::MAX as i64 {
        i32::MAX
    } else {
        m as i32
    }
}

/// A vertical speed in feet per minute as metres per second, exactly.
pub fn fpm_to_m_per_s(fpm: Decimal) -> (r: Option<Decimal>)
    ensures
        r == climb_rate_spec(fpm),
        r matches Some(v) ==> v.wf(),
{
    let product: u128 = (fpm.mantissa as u128) * 508;
    if product > MAX_MANTISSA as u128 || fpm.scale > MAX_SCALE - 5 {
        None
    } else {
        Some(Decimal { negative: fpm.negative, mantissa: product as u64, scale: fpm.scale + 5 })
    }
}

/// The climb rate is the vertical speed times 0.00508, not rounded: as
/// fractions, `v.numerator() / 10^v.scale` is `fpm.numerator() * 508 /
/// (100000 * 10^fpm.scale)`. And every whole number of feet per minute of up
/// to fifteen digits has its climb rate.
pub proof fn climb_rate_is_the_product(fpm: Decimal)
    ensures
        climb_rate_spec(fpm) matches Some(v) ==> v.numerator() == fpm.numerator() * 508 && pow10(
            v.scale as nat,
        ) == 100_000 * pow10(fpm.scale as nat),
        fpm.scale == 0 && fpm.mantissa <= 999_999_999_999_999 ==> climb_rate_spec(fpm) is Some,
{
    lemma_pow10_shift(fpm.scale as nat);
}

proof fn lemma_pow10_shift(k: nat)
    ensures
        pow10(k + 5) == 100_000 * pow10(k),
    decreases k,
{
    reveal_with_fuel(pow10, 6);
    if k > 0 {
        lemma_pow10_shift((k - 1) as nat);
    }
}

/// A whole number of feet converts as its `Decimal` does.
pub proof fn whole_numbers_convert_alike(d: Decimal)
    requires
        d.scale == 0,
    ensures
        d.scaled(3048, 10_000) == feet_to_meters_spec(d.numerator()),
{
    reveal_with_fuel(crate::decimal::pow10, 1);
}

/// A conversion is never more than half a unit away from the exact product.
pub proof fn conversions_round_to_nearest(x: int)
    ensures
        -500 <= knots_to_kmh_spec(x) * 1000 - x * 1852 <= 500,
        -5000 <= feet_to_meters_spec(x) * 10_000 - x * 3048 <= 5000,
{
}

/// Knots survive the trip to km/h and back.
pub proof fn knots_round_trip(knots: int)
    ensures
        kmh_to_knots_spec(knots_to_kmh_spec(knots)) == knots,
{
}

/// Metres survive the trip to feet and back.
pub proof fn meters_round_trip(meters: int)
    ensures
        feet_to_meters_spec(meters_to_feet_spec(meters)) == meters,
{
}

/// Feet come back from metres at most two feet off, and they come back
/// unchanged wherever the rounding to whole metres moved the altitude by
/// less than half a foot (0.1524 m).
pub proof fn feet_round_trip(feet: int)
    ensures
        -2 <= meters_to_feet_spec(feet_to_meters_spec(feet)) - feet <= 2,
        -1524 < feet_to_meters_spec(feet) * 10_000 - feet * 3048 < 1524
            ==> meters_to_feet_spec(feet_to_meters_spec(feet)) == feet,
{
}

} // verus!
