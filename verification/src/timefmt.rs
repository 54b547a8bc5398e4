//! Clock-time rendering of sunrise and sunset timestamps.
//!
//! An epoch-seconds value becomes a zero-padded 24-hour `HH:MM` string in
//! UTC. A timestamp past the largest representable date-time (the end of
//! year 262142, the bound chrono's `DateTime::from_timestamp` enforces)
//! falls back to the epoch clock time `00:00` instead of failing.

use vstd::prelude::*;
use crate::numfmt::digit_char;
use crate::text::string_from_chars;

verus! {

/// Largest epoch-seconds value with a representable date-time.
pub const MAX_TIMESTAMP_SECS: u64 = 8_210_266_876_799;

/// Two zero-padded decimal digits.
pub open spec fn two_digits(n: int) -> Seq<char>
    recommends
        0 <= n < 100,
{
    seq![digit_char(n / 10), digit_char(n % 10)]
}

/// The `HH:MM` clock reading of an epoch-seconds value, with the
/// out-of-range fallback to the epoch's own clock reading.
pub open spec fn clock_str(ts: int) -> Seq<char> {
    let t = if 0 <= ts <= MAX_TIMESTAMP_SECS {
        ts
    } else {
        0
    };
    two_digits((t / 3600) % 24) + seq![':'] + two_digits((t / 60) % 60)
}

/// An epoch-seconds timestamp as a `HH:MM` wall-clock string.
pub fn format_time(ts: u64) -> (r: String)
    ensures
        r@ == clock_str(ts as int),
{
    let t: u64 = if ts <= MAX_TIMESTAMP_SECS {
        ts
    } else {
        0
    };
    let hh: u64 = (t / 3600) % 24;
    let mm: u64 = (t / 60) % 60;
    let mut v: Vec<char> = Vec::new();
    v.push((48 + (hh / 10) as u8) as char);
    v.push((48 + (hh % 10) as u8) as char);
    v.push(':');
    v.push((48 + (mm / 10) as u8) as char);
    v.push((48 + (mm % 10) as u8) as char);
    proof {
        assert(v@ =~= clock_str(ts as int));
    }
    string_from_chars(&v)
}

} // verus!
