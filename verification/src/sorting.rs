//! Putting records in the ordinal order of their titles, records with the
//! same title staying in the order in which they came.

use vstd::prelude::*;
use crate::movie::{MovieText, SimpleMovie};
use crate::order::{
    ordinal_le,
    ordinal_le_antisymmetric,
    ordinal_le_reflexive,
    ordinal_le_total,
    ordinal_le_transitive,
    title_le,
};

verus! {

/// No record is listed before one whose title stands before its own.
pub open spec fn in_title_order(movies: Seq<MovieText>) -> bool {
    forall|i: int, j: int|
        0 <= i <= j < movies.len() ==> ordinal_le(
            (#[trigger] movies[i]).title,
            (#[trigger] movies[j]).title,
        )
}

/// `from` tells for each place of `sorted` the place of `given` that its
/// record came from: every place of `given` is used once at most, and of two
/// records with the same title the one that came first is listed first.
pub open spec fn arranges(from: Seq<int>, given: Seq<MovieText>, sorted: Seq<MovieText>) -> bool {
    &&& from.len() == given.len()
    &&& sorted.len() == given.len()
    &&& forall|k: int|
        0 <= k < from.len() ==> 0 <= #[trigger] from[k] < given.len() && sorted[k] == given[from[k]]
    &&& forall|a: int, b: int| 0 <= a < b < from.len() ==> #[trigger] from[a] != #[trigger] from[b]
    &&& forall|a: int, b: int|
        0 <= a < b < from.len() && sorted[a].title == sorted[b].title ==> #[trigger] from[a]
            < #[trigger] from[b]
}

/// `sorted` holds the records of `given`, each as often as `given` does, in
/// title order, those with the same title in the order they have in `given`.
pub open spec fn is_stable_sort_of(sorted: Seq<MovieText>, given: Seq<MovieText>) -> bool {
    in_title_order(sorted) && exists|from: Seq<int>| arranges(from, given, sorted)
}

/// The place of `given` at `i` comes before the place at `j` in the one order
/// that a stable sort can list them in.
spec fn listed_before(given: Seq<MovieText>, i: int, j: int) -> bool {
    if given[i].title == given[j].title {
        i < j
    } else {
        ordinal_le(given[i].title, given[j].title)
    }
}

/// Where one place comes before another, the other does not come before it.
proof fn listed_before_is_one_way(given: Seq<MovieText>, i: int, j: int)
    requires
        listed_before(given, i, j),
    ensures
        !listed_before(given, j, i),
{
    if given[i].title != given[j].title && ordinal_le(given[j].title, given[i].title) {
        ordinal_le_antisymmetric(given[i].title, given[j].title);
    }
}

/// An arrangement uses every place of `given`.
proof fn arrangement_reaches(from: Seq<int>, given: Seq<MovieText>, sorted: Seq<MovieText>, j: int)
    requires
        arranges(from, given, sorted),
        0 <= j < given.len(),
    ensures
        exists|k: int| 0 <= k < from.len() && from[k] == j,
{
    let n = given.len() as int;
    let places = vstd::set_lib::set_int_range(0, n);
    from.unique_seq_to_set();
    vstd::set_lib::lemma_int_range(0, n);
    vstd::set_lib::lemma_subset_equality(from.to_set(), places);
    assert(places.contains(j));
}

/// In an arrangement in title order, what is listed earlier comes before
/// what is listed later.
proof fn arrangement_lists_in_order(
    from: Seq<int>,
    given: Seq<MovieText>,
    sorted: Seq<MovieText>,
    a: int,
    b: int,
)
    requires
        arranges(from, given, sorted),
        in_title_order(sorted),
        0 <= a < b < from.len(),
    ensures
        listed_before(given, from[a], from[b]),
{
}

/// Two arrangements of the same records in title order agree at every place.
proof fn arrangements_agree(
    given: Seq<MovieText>,
    first: Seq<MovieText>,
    from_first: Seq<int>,
    second: Seq<MovieText>,
    from_second: Seq<int>,
    upto: int,
)
    requires
        arranges(from_first, given, first),
        in_title_order(first),
        arranges(from_second, given, second),
        in_title_order(second),
        0 <= upto <= given.len(),
    ensures
        forall|k: int| 0 <= k < upto ==> from_first[k] == from_second[k],
    decreases upto,
{
    if upto > 0 {
        let k = upto - 1;
        arrangements_agree(given, first, from_first, second, from_second, k);
        let x = from_first[k];
        let y = from_second[k];
        if x != y {
            arrangement_reaches(from_second, given, second, x);
            let m1 = choose|m: int| 0 <= m < from_second.len() && from_second[m] == x;
            arrangement_reaches(from_first, given, first, y);
            let m2 = choose|m: int| 0 <= m < from_first.len() && from_first[m] == y;
            // neither place is used before `k`, where the two arrangements agree
            assert(m1 > k && m2 > k);
            arrangement_lists_in_order(from_second, given, second, k, m1);
            arrangement_lists_in_order(from_first, given, first, k, m2);
            listed_before_is_one_way(given, x, y);
        }
    }
}

/// The records, the title order and the order in which equal titles came
/// leave one listing only: any two stable sorts of the same records are the
/// same listing.
pub proof fn stable_sort_is_unique(
    given: Seq<MovieText>,
    first: Seq<MovieText>,
    second: Seq<MovieText>,
)
    requires
        is_stable_sort_of(first, given),
        is_stable_sort_of(second, given),
    ensures
        first == second,
{
    let from_first = choose|from: Seq<int>| arranges(from, given, first);
    let from_second = choose|from: Seq<int>| arranges(from, given, second);
    arrangements_agree(given, first, from_first, second, from_second, given.len() as int);
    assert forall|k: int| 0 <= k < first.len() implies first[k] == second[k] by {
        assert(first[k] == given[from_first[k]]);
    }
}

/// Records that are in title order already are their own stable sort.
pub proof fn sorted_is_its_own_stable_sort(movies: Seq<MovieText>)
    requires
        in_title_order(movies),
    ensures
        is_stable_sort_of(movies, movies),
{
    let from = Seq::new(movies.len(), |k: int| k);
    assert(arranges(from, movies, movies));
}

/// A stable sort lists every record as often as it was given.
pub proof fn stable_sort_keeps_records(sorted: Seq<MovieText>, given: Seq<MovieText>, j: int)
    requires
        is_stable_sort_of(sorted, given),
        0 <= j < given.len(),
    ensures
        sorted.contains(given[j]),
{
    let from = choose|from: Seq<int>| arranges(from, given, sorted);
    arrangement_reaches(from, given, sorted, j);
    let k = choose|k: int| 0 <= k < from.len() && from[k] == j;
    assert(sorted[k] == given[j]);
}

/// Where a record with the title `title` goes in `sorted`: behind every
/// record whose title stands at or before `title`.
fn insertion_point(sorted: &Vec<SimpleMovie>, title: &str) -> (at: usize)
    requires
        in_title_order(sorted.deep_view()),
    ensures
        at <= sorted@.len(),
        forall|k: int| 0 <= k < at ==> ordinal_le(#[trigger] sorted@[k]@.title, title@),
        forall|k: int| at <= k < sorted@.len() ==> !ordinal_le(#[trigger] sorted@[k]@.title, title@),
{
    let mut low: usize = 0;
    let mut high: usize = sorted.len();
    while low < high
        invariant
            low <= high <= sorted@.len(),
            in_title_order(sorted.deep_view()),
            forall|k: int| 0 <= k < low ==> ordinal_le(#[trigger] sorted@[k]@.title, title@),
            forall|k: int|
                high <= k < sorted@.len() ==> !ordinal_le(#[trigger] sorted@[k]@.title, title@),
        decreases high - low,
    {
        let middle = low + (high - low) / 2;
        let ghost listing = sorted.deep_view();
        if title_le(sorted[middle].title.as_str(), title) {
            assert forall|k: int| 0 <= k < middle + 1 implies ordinal_le(
                #[trigger] sorted@[k]@.title,
                title@,
            ) by {
                assert(ordinal_le(listing[k].title, listing[middle as int].title));
                ordinal_le_transitive(sorted@[k]@.title, sorted@[middle as int]@.title, title@);
            }
            low = middle + 1;
        } else {
            assert forall|k: int| middle <= k < sorted@.len() implies !ordinal_le(
                #[trigger] sorted@[k]@.title,
                title@,
            ) by {
                assert(ordinal_le(listing[middle as int].title, listing[k].title));
                if ordinal_le(sorted@[k]@.title, title@) {
                    ordinal_le_transitive(sorted@[middle as int]@.title, sorted@[k]@.title, title@);
                }
            }
            high = middle;
        }
    }
    low
}

/// Puts `movies` in the ordinal order of their titles. Records with the same
/// title keep the order in which they came; none is dropped or doubled.
pub fn sort_by_title(movies: Vec<SimpleMovie>) -> (sorted: Vec<SimpleMovie>)
    ensures
        is_stable_sort_of(sorted.deep_view(), movies.deep_view()),
{
    let mut sorted: Vec<SimpleMovie> = Vec::new();
    let ghost given = movies.deep_view();
    let ghost mut from: Seq<int> = Seq::empty();
    for movie in it: movies
        invariant
            it.seq() == movies@,
            given == movies.deep_view(),
            in_title_order(sorted.deep_view()),
            from.len() == it.index(),
            sorted@.len() == it.index(),
            forall|k: int|
                0 <= k < from.len() ==> 0 <= #[trigger] from[k] < it.index() && sorted@[k]@
                    == given[from[k]],
            forall|a: int, b: int|
                0 <= a < b < from.len() ==> #[trigger] from[a] != #[trigger] from[b],
            forall|a: int, b: int|
                0 <= a < b < from.len() && sorted@[a]@.title == sorted@[b]@.title
                    ==> #[trigger] from[a] < #[trigger] from[b],
    {
        let ghost place = it.index() as int;
        let ghost before = sorted@;
        let ghost old_listing = sorted.deep_view();
        let ghost text = movie@;
        let at = insertion_point(&sorted, movie.title.as_str());
        sorted.insert(at, movie);
        proof {
            from = from.insert(at as int, place);
            let listing = sorted.deep_view();
            assert forall|i: int, j: int| 0 <= i <= j < listing.len() implies ordinal_le(
                (#[trigger] listing[i]).title,
                (#[trigger] listing[j]).title,
            ) by {
                if i == at && j == at {
                    ordinal_le_reflexive(text.title);
                } else if i == at {
                    // what stands behind the new record does not stand at or before it
                    ordinal_le_total(before[j - 1]@.title, text.title);
                } else if j != at {
                    // two records that were listed before keep their order
                    let was_i = if i < at { i } else { i - 1 };
                    let was_j = if j < at { j } else { j - 1 };
                    assert(old_listing[was_i] == before[was_i]@);
                    assert(old_listing[was_j] == before[was_j]@);
                }
            }
            assert forall|a: int, b: int|
                0 <= a < b < from.len() && sorted@[a]@.title == sorted@[b]@.title implies #[trigger] from[a]
                < #[trigger] from[b] by {
                if a == at {
                    // no record behind the new one has its title
                    ordinal_le_reflexive(text.title);
                }
            }
        }
    }
    assert(arranges(from, given, sorted.deep_view()));
    sorted
}

} // verus!
