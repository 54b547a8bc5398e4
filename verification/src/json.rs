//! A verified JSON reader.
//!
//! The decoder reads the weather document itself rather than leaning on a
//! deserializer: the document grammar is this library's own logic. The
//! reader follows the JSON grammar (RFC 8259) with the strictness a
//! permissive deserializer applies: unknown structure is parsed and kept,
//! malformed text is an error, nesting is limited to a fixed depth.
//! Numbers are carried in centi-units (hundredths) saturated to the
//! library's fixed-point range, beside the exact unsigned value of a plain
//! integer literal. Children sit in cons lists so that every walk is
//! structural recursion.

use vstd::prelude::*;
use crate::convert::CENTI_LIMIT;
use crate::text::char_from_u32;

verus! {

/// Nesting depth the reader accepts, measured in open containers.
pub const MAX_DEPTH: u32 = 128;

/// A parsed JSON value.
pub enum Json {
    Null,
    Bool(bool),
    /// A number: its centi-unit reading, whether it was written as a plain
    /// integer literal, and the exact value of such an unsigned literal.
    Num { centi: i64, is_int: bool, int_val: Option<u64> },
    Str(Vec<char>),
    Arr(Box<JsonList>),
    Obj(Box<EntryList>),
}

/// The elements of an array.
pub enum JsonList {
    Nil,
    Cons(Json, Box<JsonList>),
}

/// The key/value entries of an object, in document order.
pub enum EntryList {
    Nil,
    Cons(Vec<char>, Json, Box<EntryList>),
}

/// The mathematical shape of a parsed JSON value.
pub ghost enum JsonModel {
    Null,
    Bool(bool),
    Num { centi: int, is_int: bool, int_val: Option<int> },
    Str(Seq<char>),
    Arr(Seq<JsonModel>),
    Obj(Seq<(Seq<char>, JsonModel)>),
}

/// The mathematical value of a parsed node.
pub open spec fn json_model(j: Json) -> JsonModel
    decreases j,
{
    match j {
        Json::Null => JsonModel::Null,
        Json::Bool(b) => JsonModel::Bool(b),
        Json::Num { centi, is_int, int_val } => JsonModel::Num {
            centi: centi as int,
            is_int,
            int_val: match int_val {
                Option::None => Option::None,
                Option::Some(v) => Option::Some(v as int),
            },
        },
        Json::Str(v) => JsonModel::Str(v@),
        Json::Arr(items) => JsonModel::Arr(list_model(*items)),
        Json::Obj(entries) => JsonModel::Obj(entries_model(*entries)),
    }
}

/// The mathematical values of an array's elements.
pub open spec fn list_model(l: JsonList) -> Seq<JsonModel>
    decreases l,
{
    match l {
        JsonList::Nil => seq![],
        JsonList::Cons(j, rest) => seq![json_model(j)] + list_model(*rest),
    }
}

/// The mathematical entries of an object.
pub open spec fn entries_model(l: EntryList) -> Seq<(Seq<char>, JsonModel)>
    decreases l,
{
    match l {
        EntryList::Nil => seq![],
        EntryList::Cons(k, v, rest) => seq![(k@, json_model(v))] + entries_model(*rest),
    }
}

/// JSON insignificant whitespace.
pub open spec fn is_ws(c: char) -> bool {
    c == ' ' || c == '\t' || c == '\n' || c == '\r'
}

pub open spec fn is_digit(c: char) -> bool {
    48 <= c as u32 <= 57
}

pub open spec fn digit_val(c: char) -> int {
    c as u32 - 48
}

pub open spec fn is_hex(c: char) -> bool {
    is_digit(c) || (97 <= c as u32 <= 102) || (65 <= c as u32 <= 70)
}

pub open spec fn hex_val(c: char) -> int {
    if is_digit(c) {
        c as u32 - 48
    } else if 97 <= c as u32 <= 102 {
        c as u32 - 87
    } else {
        c as u32 - 55
    }
}

/// First position at or past `i` holding no whitespace.
pub open spec fn spec_skip_ws(s: Seq<char>, i: int) -> int
    decreases s.len() - i,
    when 0 <= i <= s.len()
{
    if i < s.len() && is_ws(s[i]) {
        spec_skip_ws(s, i + 1)
    } else {
        i
    }
}

pub fn skip_ws(s: &Vec<char>, i: usize) -> (r: usize)
    requires
        i <= s@.len(),
    ensures
        r == spec_skip_ws(s@, i as int),
        i <= r <= s@.len(),
    decreases s@.len() - i,
{
    if i < s.len() && char_is_ws(s[i]) {
        skip_ws(s, i + 1)
    } else {
        i
    }
}

fn char_is_ws(c: char) -> (r: bool)
    ensures
        r == is_ws(c),
{
    c == ' ' || c == '\t' || c == '\n' || c == '\r'
}

fn char_is_digit(c: char) -> (r: bool)
    ensures
        r == is_digit(c),
{
    let u = c as u32;
    48 <= u && u <= 57
}

fn char_is_hex(c: char) -> (r: bool)
    ensures
        r == is_hex(c),
{
    let u = c as u32;
    (48 <= u && u <= 57) || (97 <= u && u <= 102) || (65 <= u && u <= 70)
}

fn char_hex_val(c: char) -> (r: u32)
    requires
        is_hex(c),
    ensures
        r == hex_val(c),
        r < 16,
{
    let u = c as u32;
    if 48 <= u && u <= 57 {
        u - 48
    } else if 97 <= u && u <= 102 {
        u - 87
    } else {
        u - 55
    }
}

/// The character a single-letter escape stands for.
pub open spec fn escape_char(c: char) -> Option<char> {
    if c == '"' {
        Some('"')
    } else if c == '\\' {
        Some('\\')
    } else if c == '/' {
        Some('/')
    } else if c == 'b' {
        Some('\u{0008}')
    } else if c == 'f' {
        Some('\u{000c}')
    } else if c == 'n' {
        Some('\n')
    } else if c == 'r' {
        Some('\r')
    } else if c == 't' {
        Some('\t')
    } else {
        None
    }
}

fn escape_char_exec(c: char) -> (r: Option<char>)
    ensures
        r == escape_char(c),
{
    if c == '"' {
        Some('"')
    } else if c == '\\' {
        Some('\\')
    } else if c == '/' {
        Some('/')
    } else if c == 'b' {
        Some('\u{0008}')
    } else if c == 'f' {
        Some('\u{000c}')
    } else if c == 'n' {
        Some('\n')
    } else if c == 'r' {
        Some('\r')
    } else if c == 't' {
        Some('\t')
    } else {
        None
    }
}

/// Four hexadecimal digits stand at `i`.
pub open spec fn hex4_ok(s: Seq<char>, i: int) -> bool {
    i + 4 <= s.len() && is_hex(s[i]) && is_hex(s[i + 1]) && is_hex(s[i + 2]) && is_hex(s[i + 3])
}

pub open spec fn hex4_val(s: Seq<char>, i: int) -> int {
    hex_val(s[i]) * 4096 + hex_val(s[i + 1]) * 256 + hex_val(s[i + 2]) * 16 + hex_val(s[i + 3])
}

fn hex4_ok_exec(s: &Vec<char>, i: usize) -> (r: bool)
    requires
        i <= s@.len(),
    ensures
        r == hex4_ok(s@, i as int),
{
    s.len() - i >= 4 && char_is_hex(s[i]) && char_is_hex(s[i + 1]) && char_is_hex(s[i + 2])
        && char_is_hex(s[i + 3])
}

fn hex4_val_exec(s: &Vec<char>, i: usize) -> (r: u32)
    requires
        hex4_ok(s@, i as int),
    ensures
        r == hex4_val(s@, i as int),
        r <= 0xFFFF,
{
    // binds the machine length, keeping the index sums within usize
    let n = s.len();
    char_hex_val(s[i]) * 4096 + char_hex_val(s[i + 1]) * 256 + char_hex_val(s[i + 2]) * 16
        + char_hex_val(s[i + 3])
}

/// The characters of a string body starting at `i` (just past the opening
/// quote), and the position past the closing quote.
pub open spec fn spec_string(s: Seq<char>, i: int) -> Option<(Seq<char>, int)>
    decreases s.len() - i,
    when 0 <= i <= s.len()
{
    let len = s.len() as int;
    if i >= len {
        None
    } else if s[i] == '"' {
        Some((seq![], i + 1))
    } else if s[i] == '\\' {
        if i + 1 >= len {
            None
        } else if s[i + 1] == 'u' {
            if !hex4_ok(s, i + 2) {
                None
            } else {
                let code = hex4_val(s, i + 2);
                if 0xD800 <= code < 0xDC00 {
                    if i + 12 <= len && s[i + 6] == '\\' && s[i + 7] == 'u' && hex4_ok(s, i + 8) {
                        let lo = hex4_val(s, i + 8);
                        if 0xDC00 <= lo < 0xE000 {
                            let scalar = 0x10000 + (code - 0xD800) * 0x400 + (lo - 0xDC00);
                            match spec_string(s, i + 12) {
                                None => None,
                                Some((t, e)) => Some((seq![(scalar as u32) as char] + t, e)),
                            }
                        } else {
                            None
                        }
                    } else {
                        None
                    }
                } else if 0xDC00 <= code < 0xE000 {
                    None
                } else {
                    match spec_string(s, i + 6) {
                        None => None,
                        Some((t, e)) => Some((seq![(code as u32) as char] + t, e)),
                    }
                }
            }
        } else {
            match escape_char(s[i + 1]) {
                None => None,
                Some(x) => match spec_string(s, i + 2) {
                    None => None,
                    Some((t, e)) => Some((seq![x] + t, e)),
                },
            }
        }
    } else if (s[i] as u32) < 0x20 {
        None
    } else {
        match spec_string(s, i + 1) {
            None => None,
            Some((t, e)) => Some((seq![s[i]] + t, e)),
        }
    }
}

pub fn parse_string(s: &Vec<char>, i: usize) -> (r: Option<(Vec<char>, usize)>)
    requires
        i <= s@.len(),
    ensures
        r is Some <==> spec_string(s@, i as int) is Some,
        r matches Some(p) ==> spec_string(s@, i as int) == Some((p.0@, p.1 as int)),
        r matches Some(p) ==> i < p.1 <= s@.len(),
    decreases s@.len() - i,
{
    let len = s.len();
    if i >= len {
        None
    } else if s[i] == '"' {
        Some((Vec::new(), i + 1))
    } else if s[i] == '\\' {
        if i + 1 >= len {
            None
        } else if s[i + 1] == 'u' {
            if !hex4_ok_exec(s, i + 2) {
                None
            } else {
                let code = hex4_val_exec(s, i + 2);
                if 0xD800 <= code && code < 0xDC00 {
                    if len - i >= 12 && s[i + 6] == '\\' && s[i + 7] == 'u' && hex4_ok_exec(
                        s,
                        i + 8,
                    ) {
                        let lo = hex4_val_exec(s, i + 8);
                        if 0xDC00 <= lo && lo < 0xE000 {
                            let scalar: u32 = 0x10000 + (code - 0xD800) * 0x400 + (lo - 0xDC00);
                            let c = match char_from_u32(scalar) {
                                Some(c) => c,
                                None => {
                                    proof {
                                        assert(false);
                                    }
                                    '?'
                                },
                            };
                            match parse_string(s, i + 12) {
                                None => None,
                                Some((t, e)) => {
                                    let mut t2 = t;
                                    t2.insert(0, c);
                                    proof {
                                        assert(t2@ =~= seq![c] + t@);
                                    }
                                    Some((t2, e))
                                },
                            }
                        } else {
                            None
                        }
                    } else {
                        None
                    }
                } else if 0xDC00 <= code && code < 0xE000 {
                    None
                } else {
                    let c = match char_from_u32(code) {
                        Some(c) => c,
                        None => {
                            proof {
                                assert(false);
                            }
                            '?'
                        },
                    };
                    match parse_string(s, i + 6) {
                        None => None,
                        Some((t, e)) => {
                            let mut t2 = t;
                            t2.insert(0, c);
                            proof {
                                assert(t2@ =~= seq![c] + t@);
                            }
                            Some((t2, e))
                        },
                    }
                }
            }
        } else {
            match escape_char_exec(s[i + 1]) {
                None => None,
                Some(x) => match parse_string(s, i + 2) {
                    None => None,
                    Some((t, e)) => {
                        let mut t2 = t;
                        t2.insert(0, x);
                        proof {
                            assert(t2@ =~= seq![x] + t@);
                        }
                        Some((t2, e))
                    },
                },
            }
        }
    } else if (s[i] as u32) < 0x20 {
        None
    } else {
        let c = s[i];
        match parse_string(s, i + 1) {
            None => None,
            Some((t, e)) => {
                let mut t2 = t;
                t2.insert(0, c);
                proof {
                    assert(t2@ =~= seq![c] + t@);
                }
                Some((t2, e))
            },
        }
    }
}

/// A scanned number: its centi-unit reading saturated to the fixed-point
/// range, whether it was a plain integer literal, the exact value of an
/// unsigned integer literal, and the position past the token.
pub ghost struct NumModel {
    pub centi: int,
    pub is_int: bool,
    pub int_val: Option<int>,
    pub end: int,
}

/// First position at or past `i` holding no decimal digit.
pub open spec fn spec_digits_end(s: Seq<char>, i: int) -> int
    decreases s.len() - i,
    when 0 <= i <= s.len()
{
    if i < s.len() && is_digit(s[i]) {
        spec_digits_end(s, i + 1)
    } else {
        i
    }
}

fn digits_end(s: &Vec<char>, i: usize) -> (r: usize)
    requires
        i <= s@.len(),
    ensures
        r == spec_digits_end(s@, i as int),
        i <= r <= s@.len(),
        i < s@.len() && is_digit(s@[i as int]) ==> r > i,
        forall|k: int| i <= k < r ==> is_digit(s@[k]),
    decreases s@.len() - i,
{
    if i < s.len() && char_is_digit(s[i]) {
        digits_end(s, i + 1)
    } else {
        i
    }
}

/// Digit fold for a mantissa, freezing once the accumulator passes the
/// fixed-point range so that it stays within machine bounds.
pub open spec fn spec_mant(s: Seq<char>, i: int, j: int, acc: int) -> int
    decreases j - i,
{
    if i < j {
        let a2 = if acc > CENTI_LIMIT {
            acc
        } else {
            acc * 10 + digit_val(s[i])
        };
        spec_mant(s, i + 1, j, a2)
    } else {
        acc
    }
}

fn mant_fold(s: &Vec<char>, i: usize, j: usize, acc: u64) -> (r: u64)
    requires
        i <= j <= s@.len(),
        acc <= 1_000_000_000_000_000_009,
        forall|k: int| i <= k < j ==> is_digit(s@[k]),
    ensures
        r == spec_mant(s@, i as int, j as int, acc as int),
        r <= 1_000_000_000_000_000_009,
    decreases j - i,
{
    if i < j {
        let d: u64 = (s[i] as u32 - 48) as u64;
        let a2: u64 = if acc > CENTI_LIMIT as u64 {
            acc
        } else {
            acc * 10 + d
        };
        mant_fold(s, i + 1, j, a2)
    } else {
        acc
    }
}

/// Digit fold for an exact unsigned integer literal; overflow of the
/// machine range gives `None`.
pub open spec fn spec_u64_fold(s: Seq<char>, i: int, j: int, acc: Option<int>) -> Option<int>
    decreases j - i,
{
    if i < j {
        let a2 = match acc {
            None => None,
            Some(a) => {
                let v = a * 10 + digit_val(s[i]);
                if v > u64::MAX {
                    None
                } else {
                    Some(v)
                }
            },
        };
        spec_u64_fold(s, i + 1, j, a2)
    } else {
        acc
    }
}

fn u64_fold(s: &Vec<char>, i: usize, j: usize, acc: Option<u64>) -> (r: Option<u64>)
    requires
        i <= j <= s@.len(),
        forall|k: int| i <= k < j ==> is_digit(s@[k]),
    ensures
        ({
            let sp = spec_u64_fold(
                s@,
                i as int,
                j as int,
                match acc {
                    None => None,
                    Some(a) => Some(a as int),
                },
            );
            &&& (r is Some <==> sp is Some)
            &&& (r matches Some(v) ==> sp == Some(v as int))
        }),
    decreases j - i,
{
    if i < j {
        let d: u64 = (s[i] as u32 - 48) as u64;
        let a2: Option<u64> = match acc {
            None => None,
            Some(a) => {
                let wide: u128 = (a as u128) * 10 + (d as u128);
                if wide > u64::MAX as u128 {
                    None
                } else {
                    Some(wide as u64)
                }
            },
        };
        u64_fold(s, i + 1, j, a2)
    } else {
        acc
    }
}

/// Digit fold for an exponent, freezing just past the useful range.
pub open spec fn spec_exp_fold(s: Seq<char>, i: int, j: int, acc: int) -> int
    decreases j - i,
{
    if i < j {
        let a2 = if acc > 10000 {
            acc
        } else {
            acc * 10 + digit_val(s[i])
        };
        spec_exp_fold(s, i + 1, j, a2)
    } else {
        acc
    }
}

fn exp_fold(s: &Vec<char>, i: usize, j: usize, acc: u32) -> (r: u32)
    requires
        i <= j <= s@.len(),
        acc <= 100_009,
        forall|k: int| i <= k < j ==> is_digit(s@[k]),
    ensures
        r == spec_exp_fold(s@, i as int, j as int, acc as int),
        r <= 100_009,
    decreases j - i,
{
    if i < j {
        let d: u32 = s[i] as u32 - 48;
        let a2: u32 = if acc > 10000 {
            acc
        } else {
            acc * 10 + d
        };
        exp_fold(s, i + 1, j, a2)
    } else {
        acc
    }
}

pub open spec fn pow10(n: nat) -> int
    decreases n,
{
    if n == 0 {
        1
    } else {
        10 * pow10((n - 1) as nat)
    }
}

fn pow10_exec(n: u32) -> (r: u64)
    requires
        n <= 18,
    ensures
        r == pow10(n as nat),
        1 <= r <= 1_000_000_000_000_000_000,
    decreases n,
{
    if n == 0 {
        1
    } else {
        let p = pow10_exec(n - 1);
        proof {
            lemma_pow10_mono((n - 1) as nat, 17);
            reveal_with_fuel(pow10, 19);
            assert(pow10(17) == 100_000_000_000_000_000);
        }
        10 * p
    }
}

proof fn lemma_pow10_pos(n: nat)
    ensures
        pow10(n) >= 1,
    decreases n,
{
    if n > 0 {
        lemma_pow10_pos((n - 1) as nat);
    }
}

proof fn lemma_pow10_mono(a: nat, b: nat)
    requires
        a <= b,
    ensures
        pow10(a) <= pow10(b),
    decreases b,
{
    lemma_pow10_pos(a);
    if a < b {
        lemma_pow10_mono(a, (b - 1) as nat);
        lemma_pow10_pos((b - 1) as nat);
    }
}

/// The saturated centi-unit magnitude of mantissa `m` scaled by `10^k`.
pub open spec fn spec_mag(m: int, k: int) -> int {
    if m == 0 {
        0
    } else if k >= 19 {
        CENTI_LIMIT as int
    } else if k >= 0 {
        let v = m * pow10(k as nat);
        if v > CENTI_LIMIT {
            CENTI_LIMIT as int
        } else {
            v
        }
    } else if k <= -19 {
        0
    } else {
        let v = m / pow10((-k) as nat);
        if v > CENTI_LIMIT {
            CENTI_LIMIT as int
        } else {
            v
        }
    }
}

/// The finished reading of a scanned number.
pub open spec fn spec_num_finish(
    neg: bool,
    m: int,
    flen: int,
    e: int,
    is_int: bool,
    iv: Option<int>,
    end: int,
) -> NumModel {
    let mag = spec_mag(m, e + 2 - flen);
    NumModel {
        centi: if neg {
            -mag
        } else {
            mag
        },
        is_int,
        int_val: if is_int && !neg {
            iv
        } else {
            None
        },
        end,
    }
}

/// The number token starting at `i` (a sign or first digit), scanned as
/// the JSON grammar reads numbers.
pub open spec fn spec_number(s: Seq<char>, i: int) -> Option<NumModel> {
    let len = s.len() as int;
    let neg = i < len && s[i] == '-';
    let j = if neg {
        i + 1
    } else {
        i
    };
    if !(j < len && is_digit(s[j])) {
        None
    } else if s[j] == '0' && spec_digits_end(s, j) > j + 1 {
        None
    } else {
        let e1 = spec_digits_end(s, j);
        let m1 = spec_mant(s, j, e1, 0);
        let iv = spec_u64_fold(s, j, e1, Some(0));
        let has_frac = e1 < len && s[e1] == '.';
        if has_frac && !(e1 + 1 < len && is_digit(s[e1 + 1])) {
            None
        } else {
            let e2 = if has_frac {
                spec_digits_end(s, e1 + 1)
            } else {
                e1
            };
            let m2 = if has_frac {
                spec_mant(s, e1 + 1, e2, m1)
            } else {
                m1
            };
            let flen0 = if has_frac {
                e2 - (e1 + 1)
            } else {
                0
            };
            let flen = if flen0 > 100 {
                100
            } else {
                flen0
            };
            let has_exp = e2 < len && (s[e2] == 'e' || s[e2] == 'E');
            if !has_exp {
                Some(spec_num_finish(neg, m2, flen, 0, !has_frac, iv, e2))
            } else {
                let eneg = e2 + 1 < len && s[e2 + 1] == '-';
                let e3 = if e2 + 1 < len && (s[e2 + 1] == '-' || s[e2 + 1] == '+') {
                    e2 + 2
                } else {
                    e2 + 1
                };
                if !(e3 < len && is_digit(s[e3])) {
                    None
                } else {
                    let e4 = spec_digits_end(s, e3);
                    let ev = spec_exp_fold(s, e3, e4, 0);
                    Some(
                        spec_num_finish(
                            neg,
                            m2,
                            flen,
                            if eneg {
                                -ev
                            } else {
                                ev
                            },
                            false,
                            iv,
                            e4,
                        ),
                    )
                }
            }
        }
    }
}

fn num_mag(m: u64, k: i64) -> (v: u64)
    requires
        m <= 1_000_000_000_000_000_009,
        -101_000 <= k <= 101_000,
    ensures
        v == spec_mag(m as int, k as int),
        v <= CENTI_LIMIT as u64,
{
    if m == 0 {
        0
    } else if k >= 19 {
        CENTI_LIMIT as u64
    } else if k >= 0 {
        let p = pow10_exec(k as u32);
        proof {
            assert((m as int) * (p as int) <= 1_000_000_000_000_000_009
                * 1_000_000_000_000_000_000) by (nonlinear_arith)
                requires
                    0 <= m as int <= 1_000_000_000_000_000_009,
                    0 <= p as int <= 1_000_000_000_000_000_000,
            ;
        }
        let wide: u128 = (m as u128) * (p as u128);
        if wide > CENTI_LIMIT as u128 {
            CENTI_LIMIT as u64
        } else {
            wide as u64
        }
    } else if k <= -19 {
        0
    } else {
        let p = pow10_exec((-k) as u32);
        let v = m / p;
        if v > CENTI_LIMIT as u64 {
            CENTI_LIMIT as u64
        } else {
            v
        }
    }
}

/// The number token starting at `i`, as the tuple of its centi-unit
/// reading, integer-literal flag, exact unsigned literal value, and the
/// position past the token.
#[verifier::rlimit(50)]
pub fn parse_number(s: &Vec<char>, i: usize) -> (r: Option<(i64, bool, Option<u64>, usize)>)
    requires
        i <= s@.len(),
    ensures
        r is Some <==> spec_number(s@, i as int) is Some,
        r matches Some(p) ==> spec_number(s@, i as int) == Some(
            NumModel {
                centi: p.0 as int,
                is_int: p.1,
                int_val: match p.2 {
                    None => None::<int>,
                    Some(v) => Some(v as int),
                },
                end: p.3 as int,
            },
        ),
        r matches Some(p) ==> i < p.3 <= s@.len(),
        r matches Some(p) ==> -CENTI_LIMIT <= p.0 <= CENTI_LIMIT,
{
    let len = s.len();
    let neg = i < len && s[i] == '-';
    let j = if neg {
        i + 1
    } else {
        i
    };
    if !(j < len && char_is_digit(s[j])) {
        return None;
    }
    let e1 = digits_end(s, j);
    if s[j] == '0' && e1 > j + 1 {
        return None;
    }
    let m1 = mant_fold(s, j, e1, 0);
    let iv = u64_fold(s, j, e1, Some(0));
    let has_frac = e1 < len && s[e1] == '.';
    if has_frac && !(e1 + 1 < len && char_is_digit(s[e1 + 1])) {
        return None;
    }
    let e2 = if has_frac {
        digits_end(s, e1 + 1)
    } else {
        e1
    };
    let m2 = if has_frac {
        mant_fold(s, e1 + 1, e2, m1)
    } else {
        m1
    };
    let flen0: usize = if has_frac {
        e2 - (e1 + 1)
    } else {
        0
    };
    let flen: u32 = if flen0 > 100 {
        100
    } else {
        flen0 as u32
    };
    let has_exp = e2 < len && (s[e2] == 'e' || s[e2] == 'E');
    if !has_exp {
        let mag = num_mag(m2, 2 - flen as i64);
        let centi: i64 = if neg {
            -(mag as i64)
        } else {
            mag as i64
        };
        let int_val: Option<u64> = if !has_frac && !neg {
            iv
        } else {
            None
        };
        Some((centi, !has_frac, int_val, e2))
    } else {
        let eneg = e2 + 1 < len && s[e2 + 1] == '-';
        let e3 = if e2 + 1 < len && (s[e2 + 1] == '-' || s[e2 + 1] == '+') {
            e2 + 2
        } else {
            e2 + 1
        };
        if !(e3 < len && char_is_digit(s[e3])) {
            return None;
        }
        let e4 = digits_end(s, e3);
        let ev = exp_fold(s, e3, e4, 0);
        let e: i64 = if eneg {
            -(ev as i64)
        } else {
            ev as i64
        };
        let mag = num_mag(m2, e + 2 - flen as i64);
        let centi: i64 = if neg {
            -(mag as i64)
        } else {
            mag as i64
        };
        Some((centi, false, None, e4))
    }
}

/// A parser-result position clamped forward into `i+1 ..= len`, so that
/// every recursive step stands past its caller. On the positions the
/// scanners actually return this changes nothing.
pub open spec fn step_to(e: int, i: int, len: int) -> int {
    if e < i + 1 {
        i + 1
    } else if e > len {
        len
    } else {
        e
    }
}

/// The value starting at `i` (no leading whitespace), with the position
/// past it; `d` bounds how many containers may still open.
pub open spec fn spec_value(s: Seq<char>, i: int, d: int) -> Option<(JsonModel, int)>
    decreases s.len() - i, 0int,
    when 0 <= i <= s.len()
{
    let len = s.len() as int;
    if i >= len {
        None
    } else if s[i] == '{' {
        if d <= 0 {
            None
        } else {
            match spec_obj_first(s, i + 1, d - 1) {
                None => None,
                Some((es, e)) => Some((JsonModel::Obj(es), e)),
            }
        }
    } else if s[i] == '[' {
        if d <= 0 {
            None
        } else {
            match spec_arr_first(s, i + 1, d - 1) {
                None => None,
                Some((items, e)) => Some((JsonModel::Arr(items), e)),
            }
        }
    } else if s[i] == '"' {
        match spec_string(s, i + 1) {
            None => None,
            Some((cs, e)) => Some((JsonModel::Str(cs), e)),
        }
    } else if s[i] == '-' || is_digit(s[i]) {
        match spec_number(s, i) {
            None => None,
            Some(nm) => Some(
                (JsonModel::Num { centi: nm.centi, is_int: nm.is_int, int_val: nm.int_val }, nm.end),
            ),
        }
    } else if s[i] == 't' {
        if i + 4 <= len && s[i + 1] == 'r' && s[i + 2] == 'u' && s[i + 3] == 'e' {
            Some((JsonModel::Bool(true), i + 4))
        } else {
            None
        }
    } else if s[i] == 'f' {
        if i + 5 <= len && s[i + 1] == 'a' && s[i + 2] == 'l' && s[i + 3] == 's' && s[i + 4] == 'e' {
            Some((JsonModel::Bool(false), i + 5))
        } else {
            None
        }
    } else if s[i] == 'n' {
        if i + 4 <= len && s[i + 1] == 'u' && s[i + 2] == 'l' && s[i + 3] == 'l' {
            Some((JsonModel::Null, i + 4))
        } else {
            None
        }
    } else {
        None
    }
}

/// Inside an array just past `[`: the first element or the close.
pub open spec fn spec_arr_first(s: Seq<char>, i: int, d: int) -> Option<(Seq<JsonModel>, int)>
    decreases s.len() - i, 1int,
    when 0 <= i <= s.len()
{
    let len = s.len() as int;
    if i >= len {
        None
    } else if is_ws(s[i]) {
        spec_arr_first(s, i + 1, d)
    } else if s[i] == ']' {
        Some((seq![], i + 1))
    } else {
        match spec_value(s, i, d) {
            None => None,
            Some((jv, e)) => match spec_arr_sep(s, step_to(e, i, len), d) {
                None => None,
                Some((rest, e2)) => Some((seq![jv] + rest, e2)),
            },
        }
    }
}

/// Inside an array just past an element: a separator or the close.
pub open spec fn spec_arr_sep(s: Seq<char>, i: int, d: int) -> Option<(Seq<JsonModel>, int)>
    decreases s.len() - i, 1int,
    when 0 <= i <= s.len()
{
    let len = s.len() as int;
    if i >= len {
        None
    } else if is_ws(s[i]) {
        spec_arr_sep(s, i + 1, d)
    } else if s[i] == ']' {
        Some((seq![], i + 1))
    } else if s[i] == ',' {
        spec_arr_elem(s, i + 1, d)
    } else {
        None
    }
}

/// Inside an array just past a comma: the next element.
pub open spec fn spec_arr_elem(s: Seq<char>, i: int, d: int) -> Option<(Seq<JsonModel>, int)>
    decreases s.len() - i, 1int,
    when 0 <= i <= s.len()
{
    let len = s.len() as int;
    if i >= len {
        None
    } else if is_ws(s[i]) {
        spec_arr_elem(s, i + 1, d)
    } else {
        match spec_value(s, i, d) {
            None => None,
            Some((jv, e)) => match spec_arr_sep(s, step_to(e, i, len), d) {
                None => None,
                Some((rest, e2)) => Some((seq![jv] + rest, e2)),
            },
        }
    }
}

/// Inside an object just past `{`: the first key or the close.
pub open spec fn spec_obj_first(s: Seq<char>, i: int, d: int) -> Option<
    (Seq<(Seq<char>, JsonModel)>, int),
>
    decreases s.len() - i, 1int,
    when 0 <= i <= s.len()
{
    let len = s.len() as int;
    if i >= len {
        None
    } else if is_ws(s[i]) {
        spec_obj_first(s, i + 1, d)
    } else if s[i] == '}' {
        Some((seq![], i + 1))
    } else if s[i] == '"' {
        match spec_string(s, i + 1) {
            None => None,
            Some((k, e)) => spec_obj_colon(s, step_to(e, i, len), d, k),
        }
    } else {
        None
    }
}

/// Inside an object just past a key: the colon.
pub open spec fn spec_obj_colon(s: Seq<char>, i: int, d: int, k: Seq<char>) -> Option<
    (Seq<(Seq<char>, JsonModel)>, int),
>
    decreases s.len() - i, 1int,
    when 0 <= i <= s.len()
{
    let len = s.len() as int;
    if i >= len {
        None
    } else if is_ws(s[i]) {
        spec_obj_colon(s, i + 1, d, k)
    } else if s[i] == ':' {
        spec_obj_val(s, i + 1, d, k)
    } else {
        None
    }
}

/// Inside an object just past a colon: the entry's value.
pub open spec fn spec_obj_val(s: Seq<char>, i: int, d: int, k: Seq<char>) -> Option<
    (Seq<(Seq<char>, JsonModel)>, int),
>
    decreases s.len() - i, 1int,
    when 0 <= i <= s.len()
{
    let len = s.len() as int;
    if i >= len {
        None
    } else if is_ws(s[i]) {
        spec_obj_val(s, i + 1, d, k)
    } else {
        match spec_value(s, i, d) {
            None => None,
            Some((jv, e)) => match spec_obj_sep(s, step_to(e, i, len), d) {
                None => None,
                Some((rest, e2)) => Some((seq![(k, jv)] + rest, e2)),
            },
        }
    }
}

/// Inside an object just past an entry: a separator or the close.
pub open spec fn spec_obj_sep(s: Seq<char>, i: int, d: int) -> Option<
    (Seq<(Seq<char>, JsonModel)>, int),
>
    decreases s.len() - i, 1int,
    when 0 <= i <= s.len()
{
    let len = s.len() as int;
    if i >= len {
        None
    } else if is_ws(s[i]) {
        spec_obj_sep(s, i + 1, d)
    } else if s[i] == '}' {
        Some((seq![], i + 1))
    } else if s[i] == ',' {
        spec_obj_key(s, i + 1, d)
    } else {
        None
    }
}

/// Inside an object just past a comma: the next key.
pub open spec fn spec_obj_key(s: Seq<char>, i: int, d: int) -> Option<
    (Seq<(Seq<char>, JsonModel)>, int),
>
    decreases s.len() - i, 1int,
    when 0 <= i <= s.len()
{
    let len = s.len() as int;
    if i >= len {
        None
    } else if is_ws(s[i]) {
        spec_obj_key(s, i + 1, d)
    } else if s[i] == '"' {
        match spec_string(s, i + 1) {
            None => None,
            Some((k, e)) => spec_obj_colon(s, step_to(e, i, len), d, k),
        }
    } else {
        None
    }
}

/// The value starting at `i`, parsed into a tree.
pub fn parse_value(s: &Vec<char>, i: usize, d: u32) -> (r: Option<(Json, usize)>)
    requires
        i <= s@.len(),
    ensures
        r is Some <==> spec_value(s@, i as int, d as int) is Some,
        r matches Some(p) ==> spec_value(s@, i as int, d as int) == Some(
            (json_model(p.0), p.1 as int),
        ),
        r matches Some(p) ==> i < p.1 <= s@.len(),
    decreases s@.len() - i, 0int,
{
    let len = s.len();
    if i >= len {
        None
    } else if s[i] == '{' {
        if d == 0 {
            None
        } else {
            match obj_first(s, i + 1, d - 1) {
                None => None,
                Some((es, e)) => Some((Json::Obj(Box::new(es)), e)),
            }
        }
    } else if s[i] == '[' {
        if d == 0 {
            None
        } else {
            match arr_first(s, i + 1, d - 1) {
                None => None,
                Some((items, e)) => Some((Json::Arr(Box::new(items)), e)),
            }
        }
    } else if s[i] == '"' {
        match parse_string(s, i + 1) {
            None => None,
            Some((cs, e)) => Some((Json::Str(cs), e)),
        }
    } else if s[i] == '-' || char_is_digit(s[i]) {
        match parse_number(s, i) {
            None => None,
            Some(p) => Some((Json::Num { centi: p.0, is_int: p.1, int_val: p.2 }, p.3)),
        }
    } else if s[i] == 't' {
        if len - i >= 4 && s[i + 1] == 'r' && s[i + 2] == 'u' && s[i + 3] == 'e' {
            Some((Json::Bool(true), i + 4))
        } else {
            None
        }
    } else if s[i] == 'f' {
        if len - i >= 5 && s[i + 1] == 'a' && s[i + 2] == 'l' && s[i + 3] == 's' && s[i + 4]
            == 'e' {
            Some((Json::Bool(false), i + 5))
        } else {
            None
        }
    } else if s[i] == 'n' {
        if len - i >= 4 && s[i + 1] == 'u' && s[i + 2] == 'l' && s[i + 3] == 'l' {
            Some((Json::Null, i + 4))
        } else {
            None
        }
    } else {
        None
    }
}

pub(crate) fn arr_first(s: &Vec<char>, i: usize, d: u32) -> (r: Option<(JsonList, usize)>)
    requires
        i <= s@.len(),
    ensures
        r is Some <==> spec_arr_first(s@, i as int, d as int) is Some,
        r matches Some(p) ==> spec_arr_first(s@, i as int, d as int) == Some(
            (list_model(p.0), p.1 as int),
        ),
        r matches Some(p) ==> i < p.1 <= s@.len(),
    decreases s@.len() - i, 1int,
{
    let len = s.len();
    if i >= len {
        None
    } else if char_is_ws(s[i]) {
        arr_first(s, i + 1, d)
    } else if s[i] == ']' {
        Some((JsonList::Nil, i + 1))
    } else {
        match parse_value(s, i, d) {
            None => None,
            Some((jv, e)) => match arr_sep(s, e, d) {
                None => None,
                Some((rest, e2)) => Some((JsonList::Cons(jv, Box::new(rest)), e2)),
            },
        }
    }
}

pub(crate) fn arr_sep(s: &Vec<char>, i: usize, d: u32) -> (r: Option<(JsonList, usize)>)
    requires
        i <= s@.len(),
    ensures
        r is Some <==> spec_arr_sep(s@, i as int, d as int) is Some,
        r matches Some(p) ==> spec_arr_sep(s@, i as int, d as int) == Some(
            (list_model(p.0), p.1 as int),
        ),
        r matches Some(p) ==> i < p.1 <= s@.len(),
    decreases s@.len() - i, 1int,
{
    let len = s.len();
    if i >= len {
        None
    } else if char_is_ws(s[i]) {
        arr_sep(s, i + 1, d)
    } else if s[i] == ']' {
        Some((JsonList::Nil, i + 1))
    } else if s[i] == ',' {
        arr_elem(s, i + 1, d)
    } else {
        None
    }
}

pub(crate) fn arr_elem(s: &Vec<char>, i: usize, d: u32) -> (r: Option<(JsonList, usize)>)
    requires
        i <= s@.len(),
    ensures
        r is Some <==> spec_arr_elem(s@, i as int, d as int) is Some,
        r matches Some(p) ==> spec_arr_elem(s@, i as int, d as int) == Some(
            (list_model(p.0), p.1 as int),
        ),
        r matches Some(p) ==> i < p.1 <= s@.len(),
    decreases s@.len() - i, 1int,
{
    let len = s.len();
    if i >= len {
        None
    } else if char_is_ws(s[i]) {
        arr_elem(s, i + 1, d)
    } else {
        match parse_value(s, i, d) {
            None => None,
            Some((jv, e)) => match arr_sep(s, e, d) {
                None => None,
                Some((rest, e2)) => Some((JsonList::Cons(jv, Box::new(rest)), e2)),
            },
        }
    }
}

pub(crate) fn obj_first(s: &Vec<char>, i: usize, d: u32) -> (r: Option<(EntryList, usize)>)
    requires
        i <= s@.len(),
    ensures
        r is Some <==> spec_obj_first(s@, i as int, d as int) is Some,
        r matches Some(p) ==> spec_obj_first(s@, i as int, d as int) == Some(
            (entries_model(p.0), p.1 as int),
        ),
        r matches Some(p) ==> i < p.1 <= s@.len(),
    decreases s@.len() - i, 1int,
{
    let len = s.len();
    if i >= len {
        None
    } else if char_is_ws(s[i]) {
        obj_first(s, i + 1, d)
    } else if s[i] == '}' {
        Some((EntryList::Nil, i + 1))
    } else if s[i] == '"' {
        match parse_string(s, i + 1) {
            None => None,
            Some((k, e)) => obj_colon(s, e, d, k),
        }
    } else {
        None
    }
}

pub(crate) fn obj_colon(s: &Vec<char>, i: usize, d: u32, k: Vec<char>) -> (r: Option<(EntryList, usize)>)
    requires
        i <= s@.len(),
    ensures
        r is Some <==> spec_obj_colon(s@, i as int, d as int, k@) is Some,
        r matches Some(p) ==> spec_obj_colon(s@, i as int, d as int, k@) == Some(
            (entries_model(p.0), p.1 as int),
        ),
        r matches Some(p) ==> i < p.1 <= s@.len(),
    decreases s@.len() - i, 1int,
{
    let len = s.len();
    if i >= len {
        None
    } else if char_is_ws(s[i]) {
        obj_colon(s, i + 1, d, k)
    } else if s[i] == ':' {
        obj_val(s, i + 1, d, k)
    } else {
        None
    }
}

pub(crate) fn obj_val(s: &Vec<char>, i: usize, d: u32, k: Vec<char>) -> (r: Option<(EntryList, usize)>)
    requires
        i <= s@.len(),
    ensures
        r is Some <==> spec_obj_val(s@, i as int, d as int, k@) is Some,
        r matches Some(p) ==> spec_obj_val(s@, i as int, d as int, k@) == Some(
            (entries_model(p.0), p.1 as int),
        ),
        r matches Some(p) ==> i < p.1 <= s@.len(),
    decreases s@.len() - i, 1int,
{
    let len = s.len();
    if i >= len {
        None
    } else if char_is_ws(s[i]) {
        obj_val(s, i + 1, d, k)
    } else {
        match parse_value(s, i, d) {
            None => None,
            Some((jv, e)) => match obj_sep(s, e, d) {
                None => None,
                Some((rest, e2)) => Some((EntryList::Cons(k, jv, Box::new(rest)), e2)),
            },
        }
    }
}

pub(crate) fn obj_sep(s: &Vec<char>, i: usize, d: u32) -> (r: Option<(EntryList, usize)>)
    requires
        i <= s@.len(),
    ensures
        r is Some <==> spec_obj_sep(s@, i as int, d as int) is Some,
        r matches Some(p) ==> spec_obj_sep(s@, i as int, d as int) == Some(
            (entries_model(p.0), p.1 as int),
        ),
        r matches Some(p) ==> i < p.1 <= s@.len(),
    decreases s@.len() - i, 1int,
{
    let len = s.len();
    if i >= len {
        None
    } else if char_is_ws(s[i]) {
        obj_sep(s, i + 1, d)
    } else if s[i] == '}' {
        Some((EntryList::Nil, i + 1))
    } else if s[i] == ',' {
        obj_key(s, i + 1, d)
    } else {
        None
    }
}

pub(crate) fn obj_key(s: &Vec<char>, i: usize, d: u32) -> (r: Option<(EntryList, usize)>)
    requires
        i <= s@.len(),
    ensures
        r is Some <==> spec_obj_key(s@, i as int, d as int) is Some,
        r matches Some(p) ==> spec_obj_key(s@, i as int, d as int) == Some(
            (entries_model(p.0), p.1 as int),
        ),
        r matches Some(p) ==> i < p.1 <= s@.len(),
    decreases s@.len() - i, 1int,
{
    let len = s.len();
    if i >= len {
        None
    } else if char_is_ws(s[i]) {
        obj_key(s, i + 1, d)
    } else if s[i] == '"' {
        match parse_string(s, i + 1) {
            None => None,
            Some((k, e)) => obj_colon(s, e, d, k),
        }
    } else {
        None
    }
}

} // verus!
