//! Text primitives that queries are built on.
//!
//! Trimming, case folding and record parsing are done by `std` and
//! `serde_json`; their results are named here so that the contracts of the
//! store can speak about them exactly.

use std::collections::HashMap;
use vstd::prelude::*;

verus! {

/// What `str::trim` returns: the string without leading and trailing
/// whitespace.
pub uninterp spec fn trim_of(s: Seq<char>) -> Seq<char>;

/// What `str::to_lowercase` returns: the string folded to lower case. The
/// result depends on the characters alone.
pub uninterp spec fn lower_of(s: Seq<char>) -> Seq<char>;

/// Whether `serde_json` accepts the text as one JSON object. The result
/// depends on the characters alone.
pub uninterp spec fn parses_as_object(s: Seq<char>) -> bool;

/// `needle` occurs contiguously somewhere in `hay`.
pub open spec fn contains_seq(hay: Seq<char>, needle: Seq<char>) -> bool {
    exists|i: int|
        0 <= i && i + needle.len() <= hay.len() && #[trigger] hay.subrange(i, i + needle.len())
            == needle
}

/// Relies on str::trim: removes leading and trailing whitespace.
#[verifier::external_body]
pub(crate) fn trim_str(s: &str) -> (r: &str)
    ensures
        r@ == trim_of(s@),
{
    s.trim()
}

/// Relies on str::to_lowercase: folds the string to lower case.
#[verifier::external_body]
pub(crate) fn lowercase_str(s: &str) -> (r: String)
    ensures
        r@ == lower_of(s@),
{
    s.to_lowercase()
}

/// Relies on str::contains: reports whether `needle` is a substring of
/// `hay` (and an empty `needle` is a substring of everything).
#[verifier::external_body]
pub(crate) fn contains_str(hay: &str, needle: &str) -> (r: bool)
    ensures
        r == contains_seq(hay@, needle@),
{
    hay.contains(needle)
}

/// Relies on serde_json::from_str: reports whether the text parses as one
/// JSON object (a map from field names to values).
#[verifier::external_body]
pub(crate) fn parses_as_json_object(s: &str) -> (r: bool)
    ensures
        r == parses_as_object(s@),
{
    serde_json::from_str::<HashMap<String, serde_json::Value>>(s).is_ok()
}

} // verus!
