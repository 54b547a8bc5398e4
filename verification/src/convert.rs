//! Temperature conversion in fixed-point hundredths of a degree.
//!
//! A reading of 300.15 K is carried as `30015` centi-kelvin. Celsius is
//! Kelvin minus 273.15; Fahrenheit is Celsius times 9/5 plus 32, with the
//! division truncating toward zero.

use vstd::prelude::*;

verus! {

/// 273.15 K, the Celsius zero point, in hundredths.
pub const KELVIN_OFFSET_CENTI: i64 = 27315;

/// Magnitude bound on every decoded centi-unit value; conversions stay
/// within `i64` for inputs within this bound.
pub const CENTI_LIMIT: i64 = 100_000_000_000_000_000;

/// Division truncating toward zero, as the `/` of the machine integers.
pub open spec fn tdiv(a: int, b: int) -> int
    recommends
        b > 0,
{
    if a >= 0 {
        a / b
    } else {
        -((-a) / b)
    }
}

/// Celsius from Kelvin, both in hundredths.
pub open spec fn celsius_of_kelvin(k: int) -> int {
    k - 27315
}

/// Fahrenheit from Celsius, both in hundredths.
pub open spec fn fahrenheit_of_celsius(c: int) -> int {
    tdiv(c * 9, 5) + 3200
}

/// Fahrenheit from Kelvin, both in hundredths.
pub open spec fn fahrenheit_of_kelvin(k: int) -> int {
    tdiv((k - 27315) * 9, 5) + 3200
}

/// Converting Kelvin to Celsius and then Celsius to Fahrenheit agrees
/// with the direct Kelvin-to-Fahrenheit formula, for every reading.
pub proof fn lemma_conversion_round_trip(k: int)
    ensures
        fahrenheit_of_kelvin(k) == fahrenheit_of_celsius(celsius_of_kelvin(k)),
{
}

/// Kelvin reading to Celsius, in hundredths.
pub fn kelvin_to_celsius(k_centi: i64) -> (r: i64)
    requires
        -CENTI_LIMIT <= k_centi <= CENTI_LIMIT,
    ensures
        r == celsius_of_kelvin(k_centi as int),
{
    k_centi - KELVIN_OFFSET_CENTI
}

/// Celsius reading to Fahrenheit, in hundredths.
pub fn celsius_to_fahrenheit(c_centi: i64) -> (r: i64)
    requires
        -CENTI_LIMIT - 27315 <= c_centi <= CENTI_LIMIT,
    ensures
        r == fahrenheit_of_celsius(c_centi as int),
{
    if c_centi >= 0 {
        let mag: u64 = (c_centi as u64) * 9 / 5;
        (mag as i64) + 3200
    } else {
        let mag: u64 = ((-c_centi) as u64) * 9 / 5;
        3200 - (mag as i64)
    }
}

/// Kelvin reading to Fahrenheit, in hundredths.
pub fn kelvin_to_fahrenheit(k_centi: i64) -> (r: i64)
    requires
        -CENTI_LIMIT <= k_centi <= CENTI_LIMIT,
    ensures
        r == fahrenheit_of_kelvin(k_centi as int),
{
    let c = kelvin_to_celsius(k_centi);
    proof {
        lemma_conversion_round_trip(k_centi as int);
    }
    celsius_to_fahrenheit(c)
}

} // verus!
