//! The curation of a listing: records are screened, put in title order and
//! labelled, each against the title listed just before it.

use vstd::prelude::*;
use vstd::string::*;
use crate::blacklist::{blacklisted, found_in_blacklist, Blacklist};
use crate::columns::{fit, fitted};
use crate::encoding::{contains_out_of_range_char_except, out_of_range_count, MAX_BAD_CHAR_COUNT};
use crate::movie::{listing_line, MovieText, SimpleMovie};
use crate::similarity::{is_similar_title, similar_titles};
use crate::sorting::{
    arranges,
    in_title_order,
    is_stable_sort_of,
    sort_by_title,
    sorted_is_its_own_stable_sort,
    stable_sort_is_unique,
};
use crate::year::holds_year;

verus! {

/// The width of the column that holds the reason in a line about a record
/// that was turned down.
pub const REASON_COLUMN_WIDTH: usize = 25;

/// The label of a listed record.
#[derive(Clone, Copy, Debug, PartialEq, Eq, Structural)]
pub enum Classification {
    /// Nothing stands out.
    Normal,
    /// The title holds a plausible release year.
    YearDetected,
    /// The title is similar to the one listed just before it.
    SimilarToPrevious,
}

/// Why a record was turned down.
#[derive(Clone, Copy, Debug, PartialEq, Eq, Structural)]
pub enum Rejection {
    /// The title holds too many characters beyond the accepted range.
    BadChar,
    /// The title holds a phrase of the blacklist.
    Blacklisted,
}

/// A listed record with its label.
#[derive(Debug, PartialEq, Eq)]
pub struct CuratedMovie {
    pub movie: SimpleMovie,
    pub classification: Classification,
}

/// A record that was turned down, with the reason.
#[derive(Debug, PartialEq, Eq)]
pub struct RejectedMovie {
    pub movie: SimpleMovie,
    pub reason: Rejection,
}

/// What a curation yields: the listing, and the records that were turned
/// down, in the order in which they came.
#[derive(Debug, PartialEq, Eq)]
pub struct Curation {
    pub accepted: Vec<CuratedMovie>,
    pub rejected: Vec<RejectedMovie>,
}

/// What a listed record holds, as plain text.
pub struct CuratedText {
    pub movie: MovieText,
    pub classification: Classification,
}

/// What a record that was turned down holds, as plain text.
pub struct RejectedText {
    pub movie: MovieText,
    pub reason: Rejection,
}

/// What a curation holds, as plain text.
pub struct CurationText {
    pub accepted: Seq<CuratedText>,
    pub rejected: Seq<RejectedText>,
}

impl View for CuratedMovie {
    type V = CuratedText;

    open spec fn view(&self) -> CuratedText {
        CuratedText { movie: self.movie@, classification: self.classification }
    }
}

impl DeepView for CuratedMovie {
    type V = CuratedText;

    open spec fn deep_view(&self) -> CuratedText {
        self@
    }
}

impl View for RejectedMovie {
    type V = RejectedText;

    open spec fn view(&self) -> RejectedText {
        RejectedText { movie: self.movie@, reason: self.reason }
    }
}

impl DeepView for RejectedMovie {
    type V = RejectedText;

    open spec fn deep_view(&self) -> RejectedText {
        self@
    }
}

impl View for Curation {
    type V = CurationText;

    open spec fn view(&self) -> CurationText {
        CurationText {
            accepted: self.accepted.deep_view(),
            rejected: self.rejected.deep_view(),
        }
    }
}

/// Why a title is turned down, if it is: the encoding check comes first, the
/// blacklist second.
pub open spec fn rejection_of(title: Seq<char>, phrases: Seq<Seq<char>>, exempt: Seq<char>) -> Option<
    Rejection,
> {
    if out_of_range_count(title, exempt) > MAX_BAD_CHAR_COUNT {
        Some(Rejection::BadChar)
    } else if blacklisted(title, phrases) {
        Some(Rejection::Blacklisted)
    } else {
        None
    }
}

/// The records that pass the screening, in the order in which they came.
pub open spec fn accepted_of(
    records: Seq<MovieText>,
    phrases: Seq<Seq<char>>,
    exempt: Seq<char>,
) -> Seq<MovieText> {
    records.filter(|movie: MovieText| rejection_of(movie.title, phrases, exempt) is None)
}

/// The records that the screening turns down, each with the reason, in the
/// order in which they came.
pub open spec fn rejected_of(
    records: Seq<MovieText>,
    phrases: Seq<Seq<char>>,
    exempt: Seq<char>,
) -> Seq<RejectedText> {
    records.filter_map(
        |movie: MovieText|
            match rejection_of(movie.title, phrases, exempt) {
                Some(reason) => Some(RejectedText { movie, reason }),
                None => None,
            },
    )
}

/// The label of a title that is listed behind `previous`: similarity goes
/// before a year.
pub open spec fn classification_after(previous: Seq<char>, title: Seq<char>) -> Classification {
    if similar_titles(title, previous) {
        Classification::SimilarToPrevious
    } else if holds_year(title) {
        Classification::YearDetected
    } else {
        Classification::Normal
    }
}

/// The title listed just before place `i`: the empty title before the first.
pub open spec fn previous_title(listing: Seq<MovieText>, i: int) -> Seq<char> {
    if i <= 0 {
        Seq::empty()
    } else {
        listing[i - 1].title
    }
}

/// The records of `listing`, each with the label that its place gives it.
pub open spec fn classified(listing: Seq<MovieText>) -> Seq<CuratedText> {
    Seq::new(
        listing.len(),
        |i: int|
            CuratedText {
                movie: listing[i],
                classification: classification_after(previous_title(listing, i), listing[i].title),
            },
    )
}

/// The records of a labelled listing, without the labels.
pub open spec fn movies_of(accepted: Seq<CuratedText>) -> Seq<MovieText> {
    accepted.map_values(|entry: CuratedText| entry.movie)
}

/// `outcome` is the curation of `records`: its listing holds the records that
/// pass the screening, stably sorted by title and labelled place by place,
/// and it reports the others with their reasons.
pub open spec fn is_curation_of(
    outcome: CurationText,
    records: Seq<MovieText>,
    phrases: Seq<Seq<char>>,
    exempt: Seq<char>,
) -> bool {
    &&& is_stable_sort_of(movies_of(outcome.accepted), accepted_of(records, phrases, exempt))
    &&& outcome.accepted == classified(movies_of(outcome.accepted))
    &&& outcome.rejected == rejected_of(records, phrases, exempt)
}

/// The line that reports a record that was turned down: the reason in a
/// column of [`REASON_COLUMN_WIDTH`] characters, then the record's own line.
pub open spec fn rejection_line(entry: RejectedText) -> Seq<char> {
    fitted(entry.reason.tag_text(), REASON_COLUMN_WIDTH as nat) + listing_line(entry.movie)
}

impl Rejection {
    /// The text of the tag that reports this reason.
    pub open spec fn tag_text(self) -> Seq<char> {
        match self {
            Rejection::BadChar => "bad char:"@,
            Rejection::Blacklisted => "blacklisted:"@,
        }
    }

    /// The tag that reports this reason.
    pub fn tag(&self) -> (tag: &'static str)
        ensures
            tag@ == self.tag_text(),
    {
        match self {
            Rejection::BadChar => "bad char:",
            Rejection::Blacklisted => "blacklisted:",
        }
    }
}

impl RejectedMovie {
    /// The line that reports this record.
    pub fn to_line(&self) -> (line: String)
        ensures
            line@ == rejection_line(self@),
    {
        let mut line = fit(self.reason.tag(), REASON_COLUMN_WIDTH);
        let listed = self.movie.to_line();
        line.append(listed.as_str());
        line
    }
}

/// Screens one title: why it is turned down, if it is.
pub fn examine(title: &str, blacklist: &Blacklist, exempt: &[char]) -> (verdict: Option<Rejection>)
    ensures
        verdict == rejection_of(title@, blacklist@, exempt@),
{
    if contains_out_of_range_char_except(title, exempt) {
        Some(Rejection::BadChar)
    } else if found_in_blacklist(title, blacklist) {
        Some(Rejection::Blacklisted)
    } else {
        None
    }
}

/// Parts `records` into those that pass the screening and those that do not,
/// both in the order in which they came.
pub fn screen(records: Vec<SimpleMovie>, blacklist: &Blacklist, exempt: &[char]) -> (parted: (
    Vec<SimpleMovie>,
    Vec<RejectedMovie>,
))
    ensures
        parted.0.deep_view() == accepted_of(records.deep_view(), blacklist@, exempt@),
        parted.1.deep_view() == rejected_of(records.deep_view(), blacklist@, exempt@),
{
    let mut accepted: Vec<SimpleMovie> = Vec::new();
    let mut rejected: Vec<RejectedMovie> = Vec::new();
    let ghost given = records.deep_view();
    let ghost phrases = blacklist@;
    let ghost spared = exempt@;
    for movie in it: records
        invariant
            it.seq() == records@,
            given == records.deep_view(),
            phrases == blacklist@,
            spared == exempt@,
            accepted.deep_view() == accepted_of(given.take(it.index() as int), phrases, spared),
            rejected.deep_view() == rejected_of(given.take(it.index() as int), phrases, spared),
    {
        proof {
            let place = it.index() as int;
            reveal(Seq::filter);
            assert(given.take(place + 1).drop_last() =~= given.take(place));
        }
        match examine(movie.title.as_str(), blacklist, exempt) {
            Some(reason) => {
                rejected.push(RejectedMovie { movie, reason });
            },
            None => {
                accepted.push(movie);
            },
        }
    }
    assert(given.take(given.len() as int) =~= given);
    (accepted, rejected)
}

/// Labels the records of a listing, each against the title listed just
/// before it.
pub fn classify(listing: Vec<SimpleMovie>) -> (labelled: Vec<CuratedMovie>)
    ensures
        labelled.deep_view() == classified(listing.deep_view()),
{
    let mut labelled: Vec<CuratedMovie> = Vec::new();
    let mut previous_movie = String::new();
    let ghost given = listing.deep_view();
    for movie in it: listing
        invariant
            it.seq() == listing@,
            given == listing.deep_view(),
            previous_movie@ == previous_title(given, it.index() as int),
            labelled@.len() == it.index(),
            forall|k: int| 0 <= k < it.index() ==> (#[trigger] labelled@[k])@ == classified(given)[k],
    {
        let classification = if is_similar_title(movie.title.as_str(), previous_movie.as_str()) {
            Classification::SimilarToPrevious
        } else if movie.contains_year() {
            Classification::YearDetected
        } else {
            Classification::Normal
        };
        previous_movie = movie.title.clone();
        labelled.push(CuratedMovie { movie, classification });
    }
    labelled
}

/// Curates `records`: screens them against the encoding check, with the
/// characters of `exempt` not counted, and against `blacklist`; sorts what
/// passes by title; and labels the listing.
pub fn curate(records: Vec<SimpleMovie>, blacklist: &Blacklist, exempt: &[char]) -> (curation:
    Curation)
    ensures
        is_curation_of(curation@, records.deep_view(), blacklist@, exempt@),
        in_title_order(movies_of(curation@.accepted)),
{
    let (passed, rejected) = screen(records, blacklist, exempt);
    let sorted = sort_by_title(passed);
    let ghost listing = sorted.deep_view();
    let accepted = classify(sorted);
    assert(movies_of(accepted.deep_view()) =~= listing);
    Curation { accepted, rejected }
}

/// Screening keeps every record whose title passes, so it keeps all of a
/// list in which every title passes.
proof fn all_pass(records: Seq<MovieText>, phrases: Seq<Seq<char>>, exempt: Seq<char>)
    requires
        forall|k: int|
            0 <= k < records.len() ==> rejection_of(
                (#[trigger] records[k]).title,
                phrases,
                exempt,
            ) is None,
    ensures
        accepted_of(records, phrases, exempt) == records,
        rejected_of(records, phrases, exempt) == Seq::<RejectedText>::empty(),
    decreases records.len(),
{
    reveal(Seq::filter);
    if records.len() > 0 {
        all_pass(records.drop_last(), phrases, exempt);
    }
}

/// Screening loses no record and makes none: each is either kept or turned
/// down.
pub proof fn screening_parts_all(records: Seq<MovieText>, phrases: Seq<Seq<char>>, exempt: Seq<char>)
    ensures
        accepted_of(records, phrases, exempt).len() + rejected_of(records, phrases, exempt).len()
            == records.len(),
    decreases records.len(),
{
    reveal(Seq::filter);
    if records.len() > 0 {
        screening_parts_all(records.drop_last(), phrases, exempt);
    }
}

/// Curation is a function of its input: two curations of the same records,
/// with the same blacklist and the same exempted characters, are the same in
/// every record, label and reason.
pub proof fn curation_is_determined(
    records: Seq<MovieText>,
    phrases: Seq<Seq<char>>,
    exempt: Seq<char>,
    first: CurationText,
    second: CurationText,
)
    requires
        is_curation_of(first, records, phrases, exempt),
        is_curation_of(second, records, phrases, exempt),
    ensures
        first == second,
{
    stable_sort_is_unique(
        accepted_of(records, phrases, exempt),
        movies_of(first.accepted),
        movies_of(second.accepted),
    );
}

/// Curating a listing once more changes nothing: the records of a curation,
/// curated again with the same blacklist and the same exempted characters,
/// give the same listing with the same labels, and none is turned down.
pub proof fn curation_is_idempotent(
    records: Seq<MovieText>,
    phrases: Seq<Seq<char>>,
    exempt: Seq<char>,
    outcome: CurationText,
)
    requires
        is_curation_of(outcome, records, phrases, exempt),
    ensures
        is_curation_of(
            CurationText { accepted: outcome.accepted, rejected: Seq::empty() },
            movies_of(outcome.accepted),
            phrases,
            exempt,
        ),
{
    let listing = movies_of(outcome.accepted);
    let passed = accepted_of(records, phrases, exempt);
    let passes = |movie: MovieText| rejection_of(movie.title, phrases, exempt) is None;
    assert forall|k: int| 0 <= k < listing.len() implies rejection_of(
        (#[trigger] listing[k]).title,
        phrases,
        exempt,
    ) is None by {
        let from = choose|from: Seq<int>| arranges(from, passed, listing);
        records.lemma_filter_pred(passes, from[k]);
    }
    all_pass(listing, phrases, exempt);
    sorted_is_its_own_stable_sort(listing);
}

} // verus!
