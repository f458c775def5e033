//! Fixed-width columns for the lines of a listing.

use vstd::prelude::*;
use vstd::string::*;

verus! {

/// `text` made exactly `width` characters wide: cut off after `width`
/// characters if it is longer, followed by spaces if it is shorter.
pub open spec fn fitted(text: Seq<char>, width: nat) -> Seq<char> {
    if text.len() >= width {
        text.take(width as int)
    } else {
        text + Seq::new((width - text.len()) as nat, |i: int| ' ')
    }
}

/// Brings `text` to a width of exactly `width` characters, the text first.
pub fn fit(text: &str, width: usize) -> (column: String)
    ensures
        column@ == fitted(text@, width as nat),
{
    let len = text.unicode_len();
    if len >= width {
        text.substring_char(0, width).to_owned()
    } else {
        let mut column = text.to_owned();
        let mut filled: usize = len;
        proof {
            reveal_strlit(" ");
        }
        while filled < width
            invariant
                len == text@.len(),
                len <= filled <= width,
                column@ == text@ + Seq::new((filled - len) as nat, |i: int| ' '),
                " "@ == seq![' '],
            decreases width - filled,
        {
            column.append(" ");
            filled += 1;
        }
        column
    }
}

} // verus!
