//! The encoding check: a title with too many characters beyond the accepted
//! code-point range is taken to come from the wrong region.

use vstd::prelude::*;

verus! {

/// The highest code point that counts as in range.
pub const MAX_UTF8: u32 = 800;

/// How many characters beyond the range a title may hold and still pass.
pub const MAX_BAD_CHAR_COUNT: u8 = 5;

/// `c` counts against a title: its code point lies above [`MAX_UTF8`] and it
/// is not one of the exempted characters.
pub open spec fn out_of_range(c: char, exempt: Seq<char>) -> bool {
    c as int > MAX_UTF8 && !exempt.contains(c)
}

/// The number of characters of `text` that count against it.
pub open spec fn out_of_range_count(text: Seq<char>, exempt: Seq<char>) -> nat {
    text.filter(|c: char| out_of_range(c, exempt)).len()
}

/// A prefix of a text holds no more offending characters than the text.
pub proof fn out_of_range_count_of_prefix(text: Seq<char>, exempt: Seq<char>, k: int)
    requires
        0 <= k <= text.len(),
    ensures
        out_of_range_count(text.take(k), exempt) <= out_of_range_count(text, exempt),
{
    let offends = |c: char| out_of_range(c, exempt);
    assert(text =~= text.take(k) + text.skip(k));
    Seq::filter_distributes_over_add(text.take(k), text.skip(k), offends);
}

/// One more character adds one to the count if it offends, and nothing otherwise.
proof fn out_of_range_count_step(text: Seq<char>, exempt: Seq<char>, k: int)
    requires
        0 <= k < text.len(),
    ensures
        out_of_range_count(text.take(k + 1), exempt) == out_of_range_count(text.take(k), exempt)
            + (if out_of_range(text[k], exempt) { 1nat } else { 0nat }),
{
    reveal(Seq::filter);
    assert(text.take(k + 1).drop_last() =~= text.take(k));
}

/// The code point of `c`.
fn code_point(c: char) -> (code: u32)
    ensures
        code == c as int,
{
    c as u32
}

/// Whether `c` is one of the exempted characters.
fn is_exempt(c: char, exempt: &[char]) -> (found: bool)
    ensures
        found == exempt@.contains(c),
{
    let mut i: usize = 0;
    while i < exempt.len()
        invariant
            i <= exempt@.len(),
            forall|j: int| 0 <= j < i ==> exempt@[j] != c,
        decreases exempt@.len() - i,
    {
        if exempt[i] == c {
            return true;
        }
        i += 1;
    }
    false
}

/// Whether `text` holds more than [`MAX_BAD_CHAR_COUNT`] characters beyond
/// [`MAX_UTF8`], the characters of `exempt` not counted.
pub fn contains_out_of_range_char_except(text: &str, exempt: &[char]) -> (bad: bool)
    ensures
        bad == (out_of_range_count(text@, exempt@) > MAX_BAD_CHAR_COUNT),
{
    let mut bad_char_count: u8 = 0;
    proof {
        reveal(Seq::filter);
    }
    for letter in it: text.chars()
        invariant
            it.seq() == text@,
            bad_char_count == out_of_range_count(text@.take(it.index() as int), exempt@),
            bad_char_count <= MAX_BAD_CHAR_COUNT,
    {
        proof {
            out_of_range_count_step(text@, exempt@, it.index() as int);
        }
        if code_point(letter) > MAX_UTF8 && !is_exempt(letter, exempt) {
            bad_char_count += 1;
            if bad_char_count > MAX_BAD_CHAR_COUNT {
                proof {
                    out_of_range_count_of_prefix(text@, exempt@, it.index() + 1);
                }
                return true;
            }
        }
    }
    proof {
        assert(text@.take(text@.len() as int) =~= text@);
    }
    false
}

/// Whether `text` holds more than [`MAX_BAD_CHAR_COUNT`] characters beyond
/// [`MAX_UTF8`], with no character exempted.
pub fn contains_out_of_range_char(text: &str) -> (bad: bool)
    ensures
        bad == (out_of_range_count(text@, Seq::empty()) > MAX_BAD_CHAR_COUNT),
{
    let none: Vec<char> = Vec::new();
    contains_out_of_range_char_except(text, none.as_slice())
}

} // verus!
