//! The blacklist: phrases that rule a title out wherever they occur in it.

use vstd::prelude::*;
use crate::text::chars_of;

verus! {

/// The name of the file that keeps the blacklist, in the user's home directory.
pub const BLACKLIST_FILE_NAME: &'static str = "videablacklist.txt";

/// `phrase` stands in `text` from position `at` on, character for character.
pub open spec fn occurs_at(phrase: Seq<char>, text: Seq<char>, at: int) -> bool {
    0 <= at && at + phrase.len() <= text.len() && text.subrange(at, at + phrase.len()) == phrase
}

/// `phrase` stands somewhere in `text`.
pub open spec fn occurs_in(phrase: Seq<char>, text: Seq<char>) -> bool {
    exists|at: int| occurs_at(phrase, text, at)
}

/// One of `phrases` stands somewhere in `text`.
pub open spec fn blacklisted(text: Seq<char>, phrases: Seq<Seq<char>>) -> bool {
    exists|i: int| 0 <= i < phrases.len() && occurs_in(#[trigger] phrases[i], text)
}

/// Where the first line of `text` ends: the position of its first line feed,
/// or the length of `text` if it holds none.
pub open spec fn first_line_end(text: Seq<char>) -> nat
    decreases text.len(),
{
    if text.len() == 0 || text[0] == '\n' {
        0
    } else {
        1 + first_line_end(text.drop_first())
    }
}

/// A line as it stands before a line feed, without the carriage return that
/// may end it.
pub open spec fn without_carriage_return(line: Seq<char>) -> Seq<char> {
    if line.len() > 0 && line.last() == '\r' {
        line.drop_last()
    } else {
        line
    }
}

/// The lines of `text`. A line ends with a line feed, or with a carriage
/// return and a line feed; neither belongs to the line. What follows the last
/// line feed is a line of its own unless it is empty.
pub open spec fn lines_of(text: Seq<char>) -> Seq<Seq<char>>
    decreases text.len(),
{
    if text.len() == 0 {
        Seq::empty()
    } else {
        let end = first_line_end(text) as int;
        if end >= text.len() {
            seq![text]
        } else {
            seq![without_carriage_return(text.take(end))] + lines_of(text.skip(end + 1))
        }
    }
}

/// The phrases that `text` lists: its lines, the empty ones left out.
pub open spec fn phrases_of(text: Seq<char>) -> Seq<Seq<char>> {
    lines_of(text).filter(|line: Seq<char>| line.len() > 0)
}

/// The first line ends at `end` if no line feed stands before `end` and one
/// stands there, or the text ends there.
pub proof fn first_line_ends_at(text: Seq<char>, end: int)
    requires
        0 <= end <= text.len(),
        forall|j: int| 0 <= j < end ==> text[j] != '\n',
        end == text.len() || text[end] == '\n',
    ensures
        first_line_end(text) == end,
    decreases end,
{
    if end > 0 {
        first_line_ends_at(text.drop_first(), end - 1);
    }
}

/// Every phrase that a text lists is non-empty.
pub proof fn phrases_are_nonempty(text: Seq<char>)
    ensures
        forall|i: int| 0 <= i < phrases_of(text).len() ==> (#[trigger] phrases_of(text)[i]).len() > 0,
{
    let nonempty = |line: Seq<char>| line.len() > 0;
    assert forall|i: int| 0 <= i < phrases_of(text).len() implies (#[trigger] phrases_of(
        text,
    )[i]).len() > 0 by {
        lines_of(text).lemma_filter_pred(nonempty, i);
    }
}

/// A list of phrases, in the order of the file that lists them.
pub struct Blacklist {
    phrases: Vec<Vec<char>>,
}

/// The phrases that a list of character vectors holds.
pub open spec fn texts_of(phrases: Seq<Vec<char>>) -> Seq<Seq<char>> {
    phrases.map_values(|phrase: Vec<char>| phrase@)
}

impl View for Blacklist {
    type V = Seq<Seq<char>>;

    closed spec fn view(&self) -> Seq<Seq<char>> {
        texts_of(self.phrases@)
    }
}

impl Blacklist {
    /// Every phrase holds at least one character.
    pub open spec fn wf(&self) -> bool {
        forall|i: int| 0 <= i < self@.len() ==> (#[trigger] self@[i]).len() > 0
    }

    /// The blacklist without phrases.
    pub fn new() -> (list: Blacklist)
        ensures
            list@ == Seq::<Seq<char>>::empty(),
            list.wf(),
    {
        Blacklist { phrases: Vec::new() }
    }

    /// Reads a blacklist from the contents of its file: one phrase on each
    /// line, empty lines passed over.
    pub fn parse(contents: &str) -> (list: Blacklist)
        ensures
            list@ == phrases_of(contents@),
            list.wf(),
    {
        let text = chars_of(contents);
        let mut phrases: Vec<Vec<char>> = Vec::new();
        let mut line: Vec<char> = Vec::new();
        let mut i: usize = 0;
        let ghost mut start: int = 0;
        let ghost nonempty = |line: Seq<char>| line.len() > 0;
        assert(text@.skip(0) =~= text@);
        while i < text.len()
            invariant
                text@ == contents@,
                0 <= start <= i <= text@.len(),
                line@ == text@.subrange(start, i as int),
                forall|j: int| start <= j < i ==> text@[j] != '\n',
                phrases_of(text@) == texts_of(phrases@) + phrases_of(text@.skip(start)),
                nonempty == (|line: Seq<char>| line.len() > 0),
            decreases text@.len() - i,
        {
            let c = text[i];
            if c == '\n' {
                proof {
                    // the line that ends here is the first of what was left
                    let rest = text@.skip(start);
                    first_line_ends_at(rest, i - start);
                    assert(rest.take(i - start) =~= line@);
                    assert(rest.skip(i - start + 1) =~= text@.skip(i + 1));
                    let first = seq![without_carriage_return(line@)];
                    Seq::filter_distributes_over_add(first, lines_of(text@.skip(i + 1)), nonempty);
                    reveal_with_fuel(Seq::filter, 2);
                }
                let len = line.len();
                if len > 0 && line[len - 1] == '\r' {
                    line.pop();
                }
                if line.len() > 0 {
                    phrases.push(line);
                }
                line = Vec::new();
                i += 1;
                proof {
                    start = i as int;
                }
            } else {
                line.push(c);
                i += 1;
            }
        }
        proof {
            // what is left is the last line, if it holds anything
            let rest = text@.skip(start);
            first_line_ends_at(rest, rest.len() as int);
            reveal_with_fuel(Seq::filter, 2);
            phrases_are_nonempty(contents@);
        }
        if line.len() > 0 {
            phrases.push(line);
        }
        Blacklist { phrases }
    }

    /// The number of phrases.
    pub fn len(&self) -> (n: usize)
        ensures
            n == self@.len(),
    {
        self.phrases.len()
    }

    /// The phrase at `index`, counted from zero.
    pub fn phrase(&self, index: usize) -> (phrase: &Vec<char>)
        requires
            index < self@.len(),
        ensures
            phrase@ == self@[index as int],
    {
        &self.phrases[index]
    }
}

/// Whether `phrase` stands in `text` from position `at` on.
fn stands_at(phrase: &Vec<char>, text: &Vec<char>, at: usize) -> (found: bool)
    requires
        at + phrase@.len() <= text@.len(),
    ensures
        found == occurs_at(phrase@, text@, at as int),
{
    let mut k: usize = 0;
    while k < phrase.len()
        invariant
            at + phrase.len() <= text.len(),
            k <= phrase.len(),
            forall|j: int| 0 <= j < k ==> text@[at + j] == phrase@[j],
        decreases phrase@.len() - k,
    {
        if text[at + k] != phrase[k] {
            return false;
        }
        k += 1;
    }
    assert(text@.subrange(at as int, at + phrase@.len()) =~= phrase@);
    true
}

/// Whether `phrase` stands somewhere in `text`.
pub fn contains_phrase(text: &Vec<char>, phrase: &Vec<char>) -> (found: bool)
    ensures
        found == occurs_in(phrase@, text@),
{
    if phrase.len() > text.len() {
        return false;
    }
    let last: usize = text.len() - phrase.len();
    let mut at: usize = 0;
    loop
        invariant
            last == text@.len() - phrase@.len(),
            at <= last,
            forall|j: int| 0 <= j < at ==> !occurs_at(phrase@, text@, j),
        decreases last - at,
    {
        if stands_at(phrase, text, at) {
            return true;
        }
        if at == last {
            return false;
        }
        at += 1;
    }
}

/// Whether a phrase of `blacklist` stands somewhere in `text`. With no
/// phrases, none does.
pub fn found_in_blacklist(text: &str, blacklist: &Blacklist) -> (found: bool)
    ensures
        found == blacklisted(text@, blacklist@),
        blacklist@.len() == 0 ==> !found,
{
    let letters = chars_of(text);
    let mut i: usize = 0;
    while i < blacklist.phrases.len()
        invariant
            letters@ == text@,
            i <= blacklist.phrases@.len(),
            forall|j: int| 0 <= j < i ==> !occurs_in(#[trigger] blacklist@[j], text@),
        decreases blacklist.phrases@.len() - i,
    {
        if contains_phrase(&letters, &blacklist.phrases[i]) {
            assert(blacklist@[i as int] == blacklist.phrases@[i as int]@);
            return true;
        }
        i += 1;
    }
    false
}

} // verus!
