//! The standard library's text routines that the verifier cannot look into.
//!
//! Each routine is called in one place only, behind a function whose
//! contract is taken on trust. What a routine returns is given a name, so
//! that the callers' contracts can speak of it.

use vstd::prelude::*;

verus! {

/// What `str::trim` keeps of a text: the text without the white space at its
/// two ends.
pub uninterp spec fn trimmed(text: Seq<char>) -> Seq<char>;

/// The number that `str::parse::<i32>` reads from a text, or `None` where it
/// reads none.
pub uninterp spec fn parsed_i32(text: Seq<char>) -> Option<i32>;

/// The natural number that a text denotes to `str::parse::<usize>`, or `None`
/// where the text is no unsigned decimal numeral. The number does not depend
/// on how wide a `usize` is.
pub uninterp spec fn parsed_unsigned(text: Seq<char>) -> Option<nat>;

/// Calls `str::trim`. Trusted: the result is what [`trimmed`] names.
#[verifier::external_body]
pub(crate) fn trim(text: &str) -> (kept: &str)
    ensures
        kept@ == trimmed(text@),
{
    text.trim()
}

/// Calls `str::parse::<i32>` and drops the error's detail. Trusted: the
/// result is what [`parsed_i32`] names.
#[verifier::external_body]
pub(crate) fn parse_i32(text: &str) -> (number: Option<i32>)
    ensures
        number == parsed_i32(text@),
{
    text.parse::<i32>().ok()
}

/// Calls `str::parse::<usize>` and drops the error's detail. Trusted: a
/// number comes back exactly when the text denotes one that a `usize` can
/// hold, and it is that number.
#[verifier::external_body]
pub(crate) fn parse_usize(text: &str) -> (number: Option<usize>)
    ensures
        number matches Some(n) ==> parsed_unsigned(text@) == Some(n as nat),
        number is None ==> (parsed_unsigned(text@) matches Some(n) ==> n > usize::MAX),
{
    text.parse::<usize>().ok()
}

} // verus!
