//! Page keys: the page index that a file path carries as `page-<digits>`.

use vstd::prelude::*;

verus! {

pub open spec fn is_ascii_digit(c: char) -> bool {
    '0' <= c && c <= '9'
}

/// The marker that precedes a page index in a path.
pub open spec fn key_marker() -> Seq<char> {
    seq!['p', 'a', 'g', 'e', '-']
}

/// A page key starts at `i`: the marker, then at least one digit.
pub open spec fn key_starts_at(s: Seq<char>, i: int) -> bool {
    0 <= i && i + 6 <= s.len() && s.subrange(i, i + 5) == key_marker() && is_ascii_digit(s[i + 5])
}

pub open spec fn has_page_key(s: Seq<char>) -> bool {
    exists|i: int| key_starts_at(s, i)
}

/// The leftmost position at which a page key starts.
pub open spec fn first_key_start(s: Seq<char>) -> int
    recommends
        has_page_key(s),
{
    choose|i: int| key_starts_at(s, i) && forall|k: int| 0 <= k < i ==> !key_starts_at(s, k)
}

/// The end of the run of digits that begins at `j`.
pub open spec fn digit_run_end(s: Seq<char>, j: int) -> int
    decreases s.len() - j,
{
    if 0 <= j < s.len() && is_ascii_digit(s[j]) {
        digit_run_end(s, j + 1)
    } else {
        j
    }
}

/// The digits of the leftmost page key, as many as follow the marker.
pub open spec fn page_digits(s: Seq<char>) -> Seq<char> {
    let i = first_key_start(s);
    s.subrange(i + 5, digit_run_end(s, i + 5))
}

pub open spec fn unidentified() -> Seq<char> {
    seq!['u', 'n', 'i', 'd', 'e', 'n', 't', 'i', 'f', 'i', 'e', 'd']
}

/// The page key of a path: its digits, or the sentinel where it holds none.
pub open spec fn page_key(s: Seq<char>) -> Seq<char> {
    if has_page_key(s) {
        page_digits(s)
    } else {
        unidentified()
    }
}

/// Relies on regex::Regex::captures with the pattern `page-([0-9]+)`: the
/// leftmost match, whose group takes every digit that follows the marker.
#[verifier::external_body]
fn capture_page_digits(path: &str) -> (r: Option<String>)
    ensures
        r.is_some() == has_page_key(path@),
        r.is_some() ==> r.unwrap()@ == page_digits(path@),
{
    let re = regex::Regex::new(r"page-([0-9]+)").ok()?;
    let caps = re.captures(path)?;
    let m = caps.get(1)?;
    Some(m.as_str().to_string())
}

/// The page index that a path names, or `unidentified`.
pub fn extract_page_number(input: &str) -> (r: String)
    ensures
        r@ == page_key(input@),
{
    match capture_page_digits(input) {
        Some(d) => d,
        None => {
            let r = String::from_str("unidentified");
            proof {
                reveal_strlit("unidentified");
                assert(r@ =~= unidentified());
            }
            r
        },
    }
}

/// From `j` on, the run of digits is digits only and stops at a non-digit or
/// at the end.
pub proof fn lemma_digit_run(s: Seq<char>, j: int)
    requires
        0 <= j <= s.len(),
    ensures
        j <= digit_run_end(s, j) <= s.len(),
        forall|k: int| j <= k < digit_run_end(s, j) ==> is_ascii_digit(#[trigger] s[k]),
        digit_run_end(s, j) == s.len() || !is_ascii_digit(s[digit_run_end(s, j)]),
    decreases s.len() - j,
{
    if j < s.len() && is_ascii_digit(s[j]) {
        lemma_digit_run(s, j + 1);
    }
}

/// A path with a page key resolves to the digits of its leftmost key: a
/// non-empty run of digits, taken whole.
pub proof fn lemma_page_key_found(s: Seq<char>, i: int)
    requires
        key_starts_at(s, i),
        forall|k: int| 0 <= k < i ==> !key_starts_at(s, k),
    ensures
        page_key(s) == s.subrange(i + 5, digit_run_end(s, i + 5)),
        page_key(s).len() >= 1,
        forall|k: int| 0 <= k < page_key(s).len() ==> is_ascii_digit(#[trigger] page_key(s)[k]),
        digit_run_end(s, i + 5) == s.len() || !is_ascii_digit(s[digit_run_end(s, i + 5)]),
{
    assert(has_page_key(s));
    let f = first_key_start(s);
    assert(key_starts_at(s, f) && forall|k: int| 0 <= k < f ==> !key_starts_at(s, k));
    if f < i {
        assert(!key_starts_at(s, f));
    }
    if i < f {
        assert(!key_starts_at(s, i));
    }
    assert(f == i);
    lemma_digit_run(s, i + 5);
    assert(digit_run_end(s, i + 5) == digit_run_end(s, i + 6));
    let d = page_key(s);
    assert forall|k: int| 0 <= k < d.len() implies is_ascii_digit(#[trigger] d[k]) by {
        assert(d[k] == s[i + 5 + k]);
    }
}

/// A path without a page key resolves to the sentinel.
pub proof fn lemma_page_key_absent(s: Seq<char>)
    requires
        forall|i: int| !key_starts_at(s, i),
    ensures
        page_key(s) == unidentified(),
{
}

} // verus!
