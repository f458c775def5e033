//! The year check: a title that names a plausible release year stands out.

use vstd::prelude::*;
use crate::decimal::{decimal_u16, parse_u16};
use crate::pattern::{first_captures, pattern_accepted, search_first};

verus! {

/// The pattern that finds the candidate for a year: four decimal digits in a
/// row, the leftmost such window of a title.
pub const YEAR_REGEX_PATTERN: &'static str = r"(\d{4})";

/// The earliest year that counts as plausible.
pub const YEAR_MIN: u16 = 1900;

/// The latest year that counts as plausible.
pub const YEAR_MAX: u16 = 2035;

/// `token` reads as a number from [`YEAR_MIN`] to [`YEAR_MAX`], both included.
pub open spec fn plausible_year(token: Seq<char>) -> bool {
    match decimal_u16(token) {
        Some(year) => YEAR_MIN <= year <= YEAR_MAX,
        None => false,
    }
}

/// The candidate among the capture groups of a match: what the first group
/// after the whole match holds.
pub open spec fn year_token(found: Option<Seq<Option<Seq<char>>>>) -> Option<Seq<char>> {
    match found {
        Some(groups) => if groups.len() > 1 {
            groups[1]
        } else {
            None
        },
        None => None,
    }
}

/// What a search for [`YEAR_REGEX_PATTERN`] amounts to: there is a candidate
/// and it is a plausible year.
pub open spec fn year_among(found: Option<Seq<Option<Seq<char>>>>) -> bool {
    match year_token(found) {
        Some(token) => plausible_year(token),
        None => false,
    }
}

/// A title holds a plausible year when the first window of four digits that
/// [`YEAR_REGEX_PATTERN`] finds in it is one. Later windows are not looked at.
pub open spec fn holds_year(title: Seq<char>) -> bool {
    pattern_accepted(YEAR_REGEX_PATTERN@) && year_among(
        first_captures(YEAR_REGEX_PATTERN@, title),
    )
}

/// Whether `token` reads as a plausible year.
pub fn is_plausible_year(token: &str) -> (plausible: bool)
    ensures
        plausible == plausible_year(token@),
{
    match parse_u16(token) {
        Some(year) => YEAR_MIN <= year && year <= YEAR_MAX,
        None => false,
    }
}

/// Whether the capture groups of a search for [`YEAR_REGEX_PATTERN`] hold a
/// plausible year.
pub fn year_in_captures(found: &Option<Vec<Option<String>>>) -> (plausible: bool)
    ensures
        plausible == year_among(found.deep_view()),
{
    match found {
        Some(groups) => {
            if groups.len() > 1 {
                match &groups[1] {
                    Some(token) => is_plausible_year(token.as_str()),
                    None => false,
                }
            } else {
                false
            }
        },
        None => false,
    }
}

/// Whether `title` holds a plausible year.
pub fn title_contains_year(title: &str) -> (found: bool)
    ensures
        found == holds_year(title@),
{
    match search_first(YEAR_REGEX_PATTERN, title) {
        Ok(captures) => year_in_captures(&captures),
        Err(_) => false,
    }
}

} // verus!
