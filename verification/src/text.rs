//! Text predicates shared by the resolver and the engine.

use vstd::prelude::*;

verus! {

/// `needle` occurs in `hay` as a contiguous run of characters.
pub open spec fn is_infix(needle: Seq<char>, hay: Seq<char>) -> bool {
    exists|i: int|
        0 <= i && i + needle.len() <= hay.len() && #[trigger] hay.subrange(
            i,
            i + needle.len(),
        ) == needle
}

/// `tail` is what `text` ends in.
pub open spec fn is_suffix(tail: Seq<char>, text: Seq<char>) -> bool {
    tail.len() <= text.len() && text.subrange(text.len() - tail.len(), text.len() as int) == tail
}

/// Calls `str::contains` with a string pattern: true exactly when `needle`
/// matches a sub-slice of `hay`. Both are valid UTF-8, so a match of the bytes
/// is a match of the characters.
#[verifier::external_body]
pub(crate) fn str_contains(hay: &str, needle: &str) -> (found: bool)
    ensures
        found == is_infix(needle@, hay@),
{
    hay.contains(needle)
}

/// Calls `str::ends_with` with a string pattern: true exactly when `tail`
/// matches a suffix of `text`.
#[verifier::external_body]
pub(crate) fn str_ends_with(text: &str, tail: &str) -> (found: bool)
    ensures
        found == is_suffix(tail@, text@),
{
    text.ends_with(tail)
}

/// Calls `==` on two string slices: true exactly when they hold the same
/// characters.
#[verifier::external_body]
pub(crate) fn str_eq(a: &str, b: &str) -> (same: bool)
    ensures
        same == (a@ == b@),
{
    a == b
}

} // verus!
