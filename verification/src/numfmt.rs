//! Decimal rendering of the report's numbers.
//!
//! Whole numbers print as usual; centi-unit readings print with one
//! decimal place, rounding half away from zero, keeping the sign even
//! when the rounded magnitude is zero.

use vstd::prelude::*;

verus! {

/// The digit character for a value below ten.
pub open spec fn digit_char(d: int) -> char
    recommends
        0 <= d < 10,
{
    ((48 + d) as u8) as char
}

/// The decimal digits of a non-negative number, most significant first.
pub open spec fn dec_str(n: int) -> Seq<char>
    recommends
        n >= 0,
    decreases n,
{
    if n < 10 {
        seq![digit_char(n)]
    } else {
        dec_str(n / 10).push(digit_char(n % 10))
    }
}

/// A centi-unit reading rendered with one decimal place.
pub open spec fn one_dp_str(c: int) -> Seq<char> {
    let m = if c < 0 {
        -c
    } else {
        c
    };
    let deci = (m + 5) / 10;
    let body = dec_str(deci / 10) + seq!['.', digit_char(deci % 10)];
    if c < 0 {
        seq!['-'] + body
    } else {
        body
    }
}

/// The decimal digits of `n`.
pub fn u64_dec(n: u64) -> (r: Vec<char>)
    ensures
        r@ == dec_str(n as int),
    decreases n,
{
    if n < 10 {
        let mut v: Vec<char> = Vec::new();
        v.push(((48 + n as u8)) as char);
        proof {
            assert(v@ =~= dec_str(n as int));
        }
        v
    } else {
        let mut v = u64_dec(n / 10);
        v.push((48 + (n % 10) as u8) as char);
        v
    }
}

/// A centi-unit reading with one decimal place, as its characters.
pub fn centi_one_dp(c: i64) -> (r: Vec<char>)
    requires
        -1_000_000_000_000_000_000 <= c <= 1_000_000_000_000_000_000,
    ensures
        r@ == one_dp_str(c as int),
{
    let neg = c < 0;
    let m: u64 = if neg {
        (-c) as u64
    } else {
        c as u64
    };
    let deci: u64 = (m + 5) / 10;
    let mut v: Vec<char> = Vec::new();
    if neg {
        v.push('-');
    }
    let mut digits = u64_dec(deci / 10);
    v.append(&mut digits);
    v.push('.');
    v.push((48 + (deci % 10) as u8) as char);
    proof {
        assert(v@ =~= one_dp_str(c as int));
    }
    v
}

} // verus!
