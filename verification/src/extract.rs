//! Taking the records out of the text of the pages.

use vstd::prelude::*;
use crate::movie::{movie_of_capture, MovieText, SimpleMovie};
use crate::pattern::{all_captures, pattern_accepted, search_all};

verus! {

/// The pattern that finds a record in the text of a page: the address in the
/// first group, the title in the second.
pub const TITLE_REGEX_PATTERN: &'static str =
    r#"<div class="panel-video-title"><a href="(.*)" title=".*">(.*)</a></div>"#;

/// The pattern of the records was turned down, so that no text can be
/// searched for them.
#[derive(Clone, Copy, Debug, PartialEq, Eq, Structural)]
pub struct PatternRejected;

/// The records that the matches of the title pattern stand for, in the order
/// of the matches; a match that lacks the title or the address gives none.
pub open spec fn movies_of_captures(found: Seq<Seq<Option<Seq<char>>>>) -> Seq<MovieText> {
    found.filter_map(|groups: Seq<Option<Seq<char>>>| movie_of_capture(groups))
}

/// The records that `pattern` finds in the text of the pages: those of all
/// its matches. There are none to be had if the pattern is turned down.
pub open spec fn movies_matching(pattern: Seq<char>, markup: Seq<char>) -> Option<Seq<MovieText>> {
    if pattern_accepted(pattern) {
        Some(movies_of_captures(all_captures(pattern, markup)))
    } else {
        None
    }
}

/// The records in the text of the pages: what [`TITLE_REGEX_PATTERN`] finds.
pub open spec fn movies_in(markup: Seq<char>) -> Option<Seq<MovieText>> {
    movies_matching(TITLE_REGEX_PATTERN@, markup)
}

/// The records that the matches of the title pattern stand for.
pub fn movies_from_captures(found: &Vec<Vec<Option<String>>>) -> (movies: Vec<SimpleMovie>)
    ensures
        movies.deep_view() == movies_of_captures(found.deep_view()),
{
    let mut movies: Vec<SimpleMovie> = Vec::new();
    let ghost given = found.deep_view();
    let mut i: usize = 0;
    while i < found.len()
        invariant
            i <= found@.len(),
            given == found.deep_view(),
            movies.deep_view() == movies_of_captures(given.take(i as int)),
        decreases found@.len() - i,
    {
        assert(given.take(i + 1).drop_last() =~= given.take(i as int));
        match SimpleMovie::from_capture(&found[i]) {
            Some(movie) => {
                movies.push(movie);
            },
            None => {},
        }
        i += 1;
    }
    assert(given.take(found@.len() as int) =~= given);
    movies
}

/// Takes out of the text of the pages the records that `pattern` finds, a
/// pattern with the address in its first group and the title in its second.
pub fn extract_movies_with(pattern: &str, markup: &str) -> (movies: Result<
    Vec<SimpleMovie>,
    PatternRejected,
>)
    ensures
        match movies {
            Ok(found) => movies_matching(pattern@, markup@) == Some(found.deep_view()),
            Err(_) => movies_matching(pattern@, markup@) is None,
        },
{
    match search_all(pattern, markup) {
        Ok(found) => Ok(movies_from_captures(&found)),
        Err(_) => Err(PatternRejected),
    }
}

/// Takes the records out of the text of the pages.
pub fn extract_movies(markup: &str) -> (movies: Result<Vec<SimpleMovie>, PatternRejected>)
    ensures
        match movies {
            Ok(found) => movies_in(markup@) == Some(found.deep_view()),
            Err(_) => movies_in(markup@) is None,
        },
{
    extract_movies_with(TITLE_REGEX_PATTERN, markup)
}

} // verus!
