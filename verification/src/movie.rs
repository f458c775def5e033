//! The records of a listing: a title and the address it points to.

use vstd::prelude::*;
use vstd::string::*;
use crate::columns::{fit, fitted};
use crate::year::{holds_year, title_contains_year};

verus! {

/// The width of the title column in a line of the listing.
pub const TITLE_COLUMN_WIDTH: usize = 70;

/// A record as it was taken from a page.
#[derive(Debug, PartialEq, Eq)]
pub struct SimpleMovie {
    pub title: String,
    pub url: String,
}

/// What a record holds, as plain text.
pub struct MovieText {
    pub title: Seq<char>,
    pub url: Seq<char>,
}

impl View for SimpleMovie {
    type V = MovieText;

    open spec fn view(&self) -> MovieText {
        MovieText { title: self.title@, url: self.url@ }
    }
}

impl DeepView for SimpleMovie {
    type V = MovieText;

    open spec fn deep_view(&self) -> MovieText {
        self@
    }
}

/// The record that a match of the title pattern stands for: the second group
/// is the title, the first the address. There is none if either is missing.
pub open spec fn movie_of_capture(groups: Seq<Option<Seq<char>>>) -> Option<MovieText> {
    if groups.len() > 2 && groups[1] is Some && groups[2] is Some {
        Some(MovieText { title: groups[2]->0, url: groups[1]->0 })
    } else {
        None
    }
}

/// The line that lists a record: the title in a column of
/// [`TITLE_COLUMN_WIDTH`] characters, then the address.
pub open spec fn listing_line(movie: MovieText) -> Seq<char> {
    fitted(movie.title, TITLE_COLUMN_WIDTH as nat) + movie.url
}

impl SimpleMovie {
    /// A record with the given title and address.
    pub fn new(title: String, url: String) -> (movie: SimpleMovie)
        ensures
            movie@ == (MovieText { title: title@, url: url@ }),
    {
        SimpleMovie { title, url }
    }

    /// The record that the capture groups of one match stand for.
    pub fn from_capture(groups: &Vec<Option<String>>) -> (movie: Option<SimpleMovie>)
        ensures
            movie.deep_view() == movie_of_capture(groups.deep_view()),
    {
        if groups.len() > 2 {
            match (&groups[1], &groups[2]) {
                (Some(url), Some(title)) => Some(
                    SimpleMovie { title: title.clone(), url: url.clone() },
                ),
                _ => None,
            }
        } else {
            None
        }
    }

    /// Whether the title holds a plausible release year.
    pub fn contains_year(&self) -> (found: bool)
        ensures
            found == holds_year(self@.title),
    {
        title_contains_year(self.title.as_str())
    }

    /// The line that lists this record.
    pub fn to_line(&self) -> (line: String)
        ensures
            line@ == listing_line(self@),
    {
        let mut line = fit(self.title.as_str(), TITLE_COLUMN_WIDTH);
        line.append(self.url.as_str());
        line
    }
}

impl Clone for SimpleMovie {
    fn clone(&self) -> (copy: SimpleMovie)
        ensures
            copy@ == self@,
    {
        SimpleMovie { title: self.title.clone(), url: self.url.clone() }
    }
}

} // verus!
