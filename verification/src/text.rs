//! Text predicates used by filtering, and the trusted case-folding and
//! substring primitives they rest on.

use vstd::prelude::*;

verus! {

/// `needle` occurs contiguously inside `hay`.
pub open spec fn is_substring_of(needle: Seq<char>, hay: Seq<char>) -> bool {
    exists|i: int|
        0 <= i && i + needle.len() <= hay.len() && #[trigger] hay.subrange(i, i + needle.len())
            == needle
}

/// What `str::to_lowercase` returns for a given character sequence.
pub uninterp spec fn lower_of(s: Seq<char>) -> Seq<char>;

/// Relies on `str::to_lowercase`: the lowercase equivalent of the text,
/// determined by the input characters alone; the empty text stays empty.
#[verifier::external_body]
pub fn to_lowercase_string(s: &str) -> (r: String)
    ensures
        r@ == lower_of(s@),
        s@.len() == 0 ==> r@.len() == 0,
{
    s.to_lowercase()
}

/// Relies on `str::contains` with a string pattern: true exactly when the
/// pattern occurs as a contiguous substring of the text.
#[verifier::external_body]
pub fn contains_substring(hay: &str, needle: &str) -> (r: bool)
    ensures
        r == is_substring_of(needle@, hay@),
{
    hay.contains(needle)
}

} // verus!
