//! Pictogram selection for a weather condition description.
//!
//! The description is lower-cased and matched by substring against a
//! fixed, ordered keyword list: clear, cloud, rain, thunderstorm, snow,
//! fog. The first keyword found wins; no match gives a rainbow fallback.

use vstd::prelude::*;
use crate::text::chars_of;

verus! {

/// Named result of `str::to_lowercase`.
pub uninterp spec fn lower_of(s: Seq<char>) -> Seq<char>;

/// Relies on `str::to_lowercase`: the result depends on the characters
/// alone.
#[verifier::external_body]
fn lowercase(s: &str) -> (r: String)
    ensures
        r@ == lower_of(s@),
{
    s.to_lowercase()
}

/// `pat` occurs in `s` starting at position `i`.
pub open spec fn occurs_at(s: Seq<char>, pat: Seq<char>, i: int) -> bool {
    0 <= i && i + pat.len() <= s.len() && s.subrange(i, i + pat.len() as int) == pat
}

/// `pat` occurs somewhere in `s`.
pub open spec fn contains_seq(s: Seq<char>, pat: Seq<char>) -> bool {
    exists|i: int| occurs_at(s, pat, i)
}

fn match_at(h: &Vec<char>, p: &Vec<char>, i: usize) -> (r: bool)
    requires
        i + p@.len() <= h@.len(),
    ensures
        r == occurs_at(h@, p@, i as int),
{
    let mut j: usize = 0;
    let hn = h.len();
    let pn = p.len();
    while j < pn
        invariant
            hn == h@.len(),
            pn == p@.len(),
            i + p@.len() <= h@.len(),
            j <= p@.len(),
            forall|k: int| 0 <= k < j ==> h@[i + k] == p@[k],
        decreases p@.len() - j,
    {
        if h[i + j] != p[j] {
            proof {
                if occurs_at(h@, p@, i as int) {
                    assert(h@.subrange(i as int, i + p@.len() as int)[j as int] == p@[j as int]);
                }
            }
            return false;
        }
        j += 1;
    }
    proof {
        assert(h@.subrange(i as int, i + p@.len() as int) =~= p@);
    }
    true
}

fn contains_pat(h: &Vec<char>, p: &Vec<char>) -> (r: bool)
    ensures
        r == contains_seq(h@, p@),
{
    if p.len() > h.len() {
        return false;
    }
    if p.len() == 0 {
        proof {
            assert(h@.subrange(0, 0) =~= p@);
            assert(occurs_at(h@, p@, 0));
        }
        return true;
    }
    let hn = h.len();
    let last = hn - p.len();
    let mut i: usize = 0;
    while i <= last
        invariant
            hn == h@.len(),
            1 <= p@.len() <= h@.len(),
            last == h@.len() - p@.len(),
            i <= last + 1,
            forall|k: int| 0 <= k < i ==> !occurs_at(h@, p@, k),
        decreases last + 1 - i,
    {
        if match_at(h, p, i) {
            return true;
        }
        i += 1;
    }
    false
}

/// The pictogram for a lower-cased description, first keyword first.
pub open spec fn emoji_of(low: Seq<char>) -> Seq<char> {
    if contains_seq(low, "clear"@) {
        "\u{2600}\u{fe0f}"@
    } else if contains_seq(low, "cloud"@) {
        "\u{2601}\u{fe0f}"@
    } else if contains_seq(low, "rain"@) {
        "\u{1f327}\u{fe0f}"@
    } else if contains_seq(low, "thunderstorm"@) {
        "\u{26c8}\u{fe0f}"@
    } else if contains_seq(low, "snow"@) {
        "\u{2744}\u{fe0f}"@
    } else if contains_seq(low, "fog"@) {
        "\u{1f32b}\u{fe0f}"@
    } else {
        "\u{1f308}"@
    }
}

/// The pictogram for a free-text condition description.
pub fn weather_emoji(description: &str) -> (r: &'static str)
    ensures
        r@ == emoji_of(lower_of(description@)),
{
    let low = lowercase(description);
    let h = chars_of(low.as_str());
    if contains_pat(&h, &chars_of("clear")) {
        "\u{2600}\u{fe0f}"
    } else if contains_pat(&h, &chars_of("cloud")) {
        "\u{2601}\u{fe0f}"
    } else if contains_pat(&h, &chars_of("rain")) {
        "\u{1f327}\u{fe0f}"
    } else if contains_pat(&h, &chars_of("thunderstorm")) {
        "\u{26c8}\u{fe0f}"
    } else if contains_pat(&h, &chars_of("snow")) {
        "\u{2744}\u{fe0f}"
    } else if contains_pat(&h, &chars_of("fog")) {
        "\u{1f32b}\u{fe0f}"
    } else {
        "\u{1f308}"
    }
}

/// With "cloud" checked before "rain" in the fixed order, a description
/// holding both keywords, and not "clear", gets the cloud pictogram.
pub proof fn lemma_keyword_order(low: Seq<char>)
    requires
        contains_seq(low, "cloud"@),
        !contains_seq(low, "clear"@),
    ensures
        emoji_of(low) == "\u{2601}\u{fe0f}"@,
{
}

} // verus!
