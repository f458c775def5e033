//! The ordinal order of titles: character by character, by code point.

use vstd::prelude::*;
use vstd::std_specs::iter::IteratorSpec;

verus! {

/// `a` stands at or before `b` in ordinal order: at the first position where
/// the two differ `a` holds the smaller code point, or `a` ends there.
pub open spec fn ordinal_le(a: Seq<char>, b: Seq<char>) -> bool
    decreases a.len(),
{
    if a.len() == 0 {
        true
    } else if b.len() == 0 {
        false
    } else if a[0] == b[0] {
        ordinal_le(a.drop_first(), b.drop_first())
    } else {
        a[0] < b[0]
    }
}

/// Every title stands at or before itself.
pub proof fn ordinal_le_reflexive(a: Seq<char>)
    ensures
        ordinal_le(a, a),
    decreases a.len(),
{
    if a.len() > 0 {
        ordinal_le_reflexive(a.drop_first());
    }
}

/// Of any two titles one stands at or before the other.
pub proof fn ordinal_le_total(a: Seq<char>, b: Seq<char>)
    ensures
        ordinal_le(a, b) || ordinal_le(b, a),
    decreases a.len(),
{
    if a.len() > 0 && b.len() > 0 && a[0] == b[0] {
        ordinal_le_total(a.drop_first(), b.drop_first());
    }
}

/// Two titles that each stand at or before the other are the same title.
pub proof fn ordinal_le_antisymmetric(a: Seq<char>, b: Seq<char>)
    requires
        ordinal_le(a, b),
        ordinal_le(b, a),
    ensures
        a == b,
    decreases a.len(),
{
    if a.len() > 0 && b.len() > 0 {
        ordinal_le_antisymmetric(a.drop_first(), b.drop_first());
        assert(a =~= seq![a[0]] + a.drop_first());
        assert(b =~= seq![b[0]] + b.drop_first());
    } else {
        assert(a =~= b);
    }
}

/// The order carries over a title in the middle.
pub proof fn ordinal_le_transitive(a: Seq<char>, b: Seq<char>, c: Seq<char>)
    requires
        ordinal_le(a, b),
        ordinal_le(b, c),
    ensures
        ordinal_le(a, c),
    decreases a.len(),
{
    if a.len() > 0 && b.len() > 0 && c.len() > 0 && a[0] == b[0] && b[0] == c[0] {
        ordinal_le_transitive(a.drop_first(), b.drop_first(), c.drop_first());
    }
}

/// Whether `a` stands at or before `b` in ordinal order.
pub fn title_le(a: &str, b: &str) -> (le: bool)
    ensures
        le == ordinal_le(a@, b@),
{
    let mut rest_a = a.chars();
    let mut rest_b = b.chars();
    let ghost mut at: int = 0;
    loop
        invariant
            0 <= at <= a@.len(),
            at <= b@.len(),
            rest_a.remaining() == a@.skip(at),
            rest_b.remaining() == b@.skip(at),
            ordinal_le(a@, b@) == ordinal_le(a@.skip(at), b@.skip(at)),
        decreases a@.len() - at,
    {
        match rest_a.next() {
            None => {
                return true;
            },
            Some(x) => {
                match rest_b.next() {
                    None => {
                        return false;
                    },
                    Some(y) => {
                        if x != y {
                            return x < y;
                        }
                        proof {
                            assert(a@.skip(at).drop_first() =~= a@.skip(at + 1));
                            assert(b@.skip(at).drop_first() =~= b@.skip(at + 1));
                            at = at + 1;
                        }
                    },
                }
            },
        }
    }
}

} // verus!

