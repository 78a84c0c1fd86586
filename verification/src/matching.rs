//! The rule by which a text query selects package names.

use vstd::prelude::*;
use vstd::string::*;
use vstd::utf8::*;

use crate::text::chars_of;

verus! {

/// The lowercase form of a string, as `str::to_lowercase` computes it.
pub uninterp spec fn lowercase(s: Seq<char>) -> Seq<char>;

/// `str::to_lowercase`: the result is the lowercase form of `s`, which
/// this crate does not define but names.
#[verifier::external_body]
pub(crate) fn lowercase_text(s: &str) -> (r: String)
    ensures
        r@ == lowercase(s@),
{
    s.to_lowercase()
}

/// A byte with the ASCII capital letters mapped to their small forms.
pub open spec fn ascii_lower(b: u8) -> u8 {
    if 65 <= b <= 90 {
        (b + 32) as u8
    } else {
        b
    }
}

/// Whether `n` stands in `h` at offset `at`, ASCII letter case set aside.
pub open spec fn ascii_window(h: Seq<u8>, n: Seq<u8>, at: int) -> bool {
    &&& 0 <= at
    &&& at + n.len() <= h.len()
    &&& forall|j: int| 0 <= j < n.len() ==> ascii_lower(h[at + j]) == ascii_lower(#[trigger] n[j])
}

/// Whether `n` stands somewhere in `h`, ASCII letter case set aside.
pub open spec fn ascii_contains(h: Seq<u8>, n: Seq<u8>) -> bool {
    exists|at: int| ascii_window(h, n, at)
}

/// Whether `n` stands in `h` at offset `at`.
pub open spec fn infix_at(h: Seq<char>, n: Seq<char>, at: int) -> bool {
    &&& 0 <= at
    &&& at + n.len() <= h.len()
    &&& forall|j: int| 0 <= j < n.len() ==> h[at + j] == #[trigger] n[j]
}

/// Whether `n` stands somewhere in `h`.
pub open spec fn has_infix(h: Seq<char>, n: Seq<char>) -> bool {
    exists|at: int| infix_at(h, n, at)
}

/// Whether `item` passes a query whose kind the caller has determined:
/// an ASCII query is searched bytewise without regard to ASCII case; any
/// other is searched, in its lowercase form, in the lowercase form of the
/// item, and passes everything when that form is not supplied.
pub open spec fn leaf_matches(
    item: Seq<char>,
    query: Seq<char>,
    query_lower: Option<Seq<char>>,
    query_is_ascii: bool,
) -> bool {
    if query_is_ascii {
        ascii_contains(encode_utf8(item), encode_utf8(query))
    } else {
        match query_lower {
            Some(q) => has_infix(lowercase(item), q),
            None => true,
        }
    }
}

/// Whether `item` passes the text query `query`: the empty query passes
/// everything, an ASCII query is searched bytewise without regard to ASCII
/// case, any other by lowercase forms.
pub open spec fn query_matches(item: Seq<char>, query: Seq<char>) -> bool {
    if query.len() == 0 {
        true
    } else if is_ascii_chars(query) {
        ascii_contains(encode_utf8(item), encode_utf8(query))
    } else {
        has_infix(lowercase(item), lowercase(query))
    }
}

/// A byte with the ASCII capital letters mapped to their small forms.
pub(crate) fn lower_byte(b: u8) -> (r: u8)
    ensures
        r == ascii_lower(b),
{
    if 65 <= b && b <= 90 {
        b + 32
    } else {
        b
    }
}

fn ascii_window_at(h: &[u8], n: &[u8], at: usize) -> (hit: bool)
    requires
        at + n@.len() <= h@.len(),
    ensures
        hit == ascii_window(h@, n@, at as int),
{
    let total: usize = h.len();
    let mut j: usize = 0;
    while j < n.len()
        invariant
            j <= n@.len(),
            at + n@.len() <= h@.len(),
            h@.len() == total,
            forall|t: int| 0 <= t < j ==> ascii_lower(h@[at + t]) == ascii_lower(#[trigger] n@[t]),
        decreases n@.len() - j,
    {
        if lower_byte(h[at + j]) != lower_byte(n[j]) {
            return false;
        }
        j = j + 1;
    }
    true
}

/// Whether `needle` stands somewhere in `haystack`, ASCII letter case set
/// aside. The empty needle stands in every haystack.
pub fn contains_ascii_case_insensitive(haystack: &[u8], needle: &[u8]) -> (found: bool)
    ensures
        found == ascii_contains(haystack@, needle@),
{
    if needle.len() > haystack.len() {
        return false;
    }
    let last: usize = haystack.len() - needle.len();
    let mut at: usize = 0;
    while at < last
        invariant
            at <= last,
            last + needle@.len() == haystack@.len(),
            forall|k: int| 0 <= k < at ==> !ascii_window(haystack@, needle@, k),
        decreases last - at,
    {
        if ascii_window_at(haystack, needle, at) {
            return true;
        }
        at = at + 1;
    }
    ascii_window_at(haystack, needle, last)
}

fn infix_window_at(h: &Vec<char>, n: &Vec<char>, at: usize) -> (hit: bool)
    requires
        at + n@.len() <= h@.len(),
    ensures
        hit == infix_at(h@, n@, at as int),
{
    let total: usize = h.len();
    let mut j: usize = 0;
    while j < n.len()
        invariant
            j <= n@.len(),
            at + n@.len() <= h@.len(),
            h@.len() == total,
            forall|t: int| 0 <= t < j ==> h@[at + t] == #[trigger] n@[t],
        decreases n@.len() - j,
    {
        if h[at + j] != n[j] {
            return false;
        }
        j = j + 1;
    }
    true
}

/// Whether `needle` stands somewhere in `haystack`.
pub fn contains_text(haystack: &str, needle: &str) -> (found: bool)
    ensures
        found == has_infix(haystack@, needle@),
{
    let h = chars_of(haystack);
    let n = chars_of(needle);
    if n.len() > h.len() {
        return false;
    }
    let last: usize = h.len() - n.len();
    let mut at: usize = 0;
    while at < last
        invariant
            at <= last,
            last + n@.len() == h@.len(),
            h@ == haystack@,
            n@ == needle@,
            forall|k: int| 0 <= k < at ==> !infix_at(h@, n@, k),
        decreases last - at,
    {
        if infix_window_at(&h, &n, at) {
            return true;
        }
        at = at + 1;
    }
    infix_window_at(&h, &n, last)
}

/// Whether `item` passes a query whose kind the caller has determined.
pub fn leaf_matches_query(
    item: &str,
    query: &str,
    query_lower: Option<&str>,
    query_is_ascii: bool,
) -> (hit: bool)
    ensures
        hit == leaf_matches(item@, query@, query_lower.deep_view(), query_is_ascii),
{
    if query_is_ascii {
        return contains_ascii_case_insensitive(item.as_bytes(), query.as_bytes());
    }
    match query_lower {
        Some(q) => {
            let lowered = lowercase_text(item);
            contains_text(lowered.as_str(), q)
        },
        None => true,
    }
}

/// Whether `item` passes the text query `query`.
pub fn matches_query(item: &str, query: &str) -> (hit: bool)
    ensures
        hit == query_matches(item@, query@),
{
    if query.is_empty() {
        true
    } else if query.is_ascii() {
        contains_ascii_case_insensitive(item.as_bytes(), query.as_bytes())
    } else {
        let q = lowercase_text(query);
        let lowered = lowercase_text(item);
        contains_text(lowered.as_str(), q.as_str())
    }
}

/// Whether `name` is one of `names`.
pub fn contains_name(names: &Vec<String>, name: &str) -> (found: bool)
    ensures
        found == names.deep_view().contains(name@),
{
    let mut i: usize = 0;
    while i < names.len()
        invariant
            i <= names.len(),
            forall|j: int| 0 <= j < i ==> names.deep_view()[j] != name@,
        decreases names.len() - i,
    {
        if crate::text::same_text(names[i].as_str(), name) {
            proof {
                assert(names.deep_view()[i as int] == name@);
            }
            return true;
        }
        i = i + 1;
    }
    false
}

} // verus!
