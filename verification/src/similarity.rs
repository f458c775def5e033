//! The near-duplicate check between a title and the one listed just before it.

use vstd::prelude::*;
use vstd::std_specs::iter::IteratorSpec;

verus! {

/// How many positions two titles must agree at to count as similar.
pub const SIMILAR_MATCH_CHAR_COUNT: u8 = 8;

/// The number of positions below `upto` at which `a` and `b` hold the same
/// character.
pub open spec fn agreements(a: Seq<char>, b: Seq<char>, upto: int) -> nat
    decreases upto,
{
    if upto <= 0 {
        0
    } else {
        agreements(a, b, upto - 1) + (if a[upto - 1] == b[upto - 1] { 1nat } else { 0nat })
    }
}

/// The number of positions that both titles have: the length of the shorter.
pub open spec fn shared_length(a: Seq<char>, b: Seq<char>) -> int {
    if a.len() < b.len() {
        a.len() as int
    } else {
        b.len() as int
    }
}

/// Two titles are similar when, over the positions that both have, they
/// agree at [`SIMILAR_MATCH_CHAR_COUNT`] of them or more.
pub open spec fn similar_titles(a: Seq<char>, b: Seq<char>) -> bool {
    agreements(a, b, shared_length(a, b)) >= SIMILAR_MATCH_CHAR_COUNT
}

/// Looking at more positions never lowers the number of agreements.
pub proof fn agreements_grow(a: Seq<char>, b: Seq<char>, fewer: int, more: int)
    requires
        fewer <= more,
    ensures
        agreements(a, b, fewer) <= agreements(a, b, more),
    decreases more - fewer,
{
    if fewer < more {
        agreements_grow(a, b, fewer, more - 1);
    }
}

/// There are no more agreements than positions looked at.
pub proof fn agreements_are_bounded(a: Seq<char>, b: Seq<char>, upto: int)
    requires
        0 <= upto,
    ensures
        agreements(a, b, upto) <= upto,
    decreases upto,
{
    if upto > 0 {
        agreements_are_bounded(a, b, upto - 1);
    }
}

/// Two titles of which one is shorter than [`SIMILAR_MATCH_CHAR_COUNT`] are
/// never similar.
pub proof fn short_titles_are_not_similar(a: Seq<char>, b: Seq<char>)
    requires
        shared_length(a, b) < SIMILAR_MATCH_CHAR_COUNT,
    ensures
        !similar_titles(a, b),
{
    agreements_are_bounded(a, b, shared_length(a, b));
}

/// Whether `t0` is similar to `t1`, the title listed just before it.
pub fn is_similar_title(t0: &str, t1: &str) -> (similar: bool)
    ensures
        similar == similar_titles(t0@, t1@),
{
    let mut rest0 = t0.chars();
    let mut rest1 = t1.chars();
    let mut match_count: u8 = 0;
    let ghost mut at: int = 0;
    loop
        invariant
            0 <= at <= shared_length(t0@, t1@),
            rest0.remaining() == t0@.skip(at),
            rest1.remaining() == t1@.skip(at),
            match_count == agreements(t0@, t1@, at),
            match_count < SIMILAR_MATCH_CHAR_COUNT,
        decreases t0@.len() - at,
    {
        match rest0.next() {
            None => {
                return false;
            },
            Some(x) => {
                match rest1.next() {
                    None => {
                        return false;
                    },
                    Some(y) => {
                        if x == y {
                            match_count += 1;
                        }
                        proof {
                            at = at + 1;
                        }
                        if match_count == SIMILAR_MATCH_CHAR_COUNT {
                            proof {
                                agreements_grow(t0@, t1@, at, shared_length(t0@, t1@));
                            }
                            return true;
                        }
                    },
                }
            },
        }
    }
}

} // verus!
