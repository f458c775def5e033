//! Searches with regular expressions, which the `regex` crate carries out.
//! Nothing here is proved: each item states what its source shows.

use vstd::prelude::*;

verus! {

/// The error with which `regex` turns a pattern down.
#[verifier::external_type_specification]
#[verifier::external_body]
pub struct ExPatternError(regex::Error);

/// Whether `regex::Regex::new` accepts `pattern`.
pub uninterp spec fn pattern_accepted(pattern: Seq<char>) -> bool;

/// For an accepted pattern, what `regex::Regex::captures` finds in
/// `haystack`: nothing, or the capture groups of the leftmost match, the
/// whole match first, each group with the text it matched if it took part.
pub uninterp spec fn first_captures(pattern: Seq<char>, haystack: Seq<char>) -> Option<
    Seq<Option<Seq<char>>>,
>;

/// For an accepted pattern, what `regex::Regex::captures_iter` finds in
/// `haystack`: the capture groups of each of the successive matches that do
/// not overlap, in the order of the matches.
pub uninterp spec fn all_captures(pattern: Seq<char>, haystack: Seq<char>) -> Seq<
    Seq<Option<Seq<char>>>,
>;

/// Compiles `pattern` with `regex::Regex::new` and searches `haystack` with
/// `Regex::captures`. The contract claims that the pattern alone decides
/// between `Ok` and `Err`, and that pattern and haystack alone decide what is
/// found; it gives these two results their names and says no more of them.
#[verifier::external_body]
pub(crate) fn search_first(pattern: &str, haystack: &str) -> (found: Result<
    Option<Vec<Option<String>>>,
    regex::Error,
>)
    ensures
        found is Ok <==> pattern_accepted(pattern@),
        found is Ok ==> found->Ok_0.deep_view() == first_captures(pattern@, haystack@),
{
    let compiled = regex::Regex::new(pattern)?;
    Ok(
        compiled.captures(haystack).map(
            |found| found.iter().map(|group| group.map(|part| part.as_str().to_owned())).collect(),
        ),
    )
}

/// Compiles `pattern` with `regex::Regex::new` and walks `haystack` with
/// `Regex::captures_iter`. The contract claims that the pattern alone decides
/// between `Ok` and `Err`, and that pattern and haystack alone decide what is
/// found; it gives these two results their names and says no more of them.
#[verifier::external_body]
pub(crate) fn search_all(pattern: &str, haystack: &str) -> (found: Result<
    Vec<Vec<Option<String>>>,
    regex::Error,
>)
    ensures
        found is Ok <==> pattern_accepted(pattern@),
        found is Ok ==> found->Ok_0.deep_view() == all_captures(pattern@, haystack@),
{
    let compiled = regex::Regex::new(pattern)?;
    Ok(
        compiled.captures_iter(haystack).map(
            |found| found.iter().map(|group| group.map(|part| part.as_str().to_owned())).collect(),
        ).collect(),
    )
}

} // verus!
