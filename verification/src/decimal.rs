//! Decimal numerals: reading an unsigned number from text and writing one out.

use vstd::prelude::*;
use vstd::string::*;

verus! {

/// The value of a decimal digit, if `c` is one of `0` to `9`.
pub open spec fn digit_value(c: char) -> Option<nat> {
    if '0' <= c <= '9' {
        Some((c as int - '0' as int) as nat)
    } else {
        None
    }
}

/// The number that a run of decimal digits denotes; `None` as soon as one
/// character is no digit. The empty run denotes zero.
pub open spec fn digits_value(s: Seq<char>) -> Option<nat>
    decreases s.len(),
{
    if s.len() == 0 {
        Some(0)
    } else {
        match (digits_value(s.drop_last()), digit_value(s.last())) {
            (Some(high), Some(low)) => Some(high * 10 + low),
            _ => None,
        }
    }
}

/// The digits of a numeral: the text itself, without one leading `+`.
pub open spec fn numeral_digits(s: Seq<char>) -> Seq<char> {
    if s.len() > 0 && s[0] == '+' {
        s.drop_first()
    } else {
        s
    }
}

/// What a numeral denotes as a 16-bit number: an optional `+`, then at least
/// one decimal digit and nothing else, with a value of at most 65535.
pub open spec fn decimal_u16(s: Seq<char>) -> Option<u16> {
    let digits = numeral_digits(s);
    match digits_value(digits) {
        Some(v) => if digits.len() > 0 && v <= u16::MAX {
            Some(v as u16)
        } else {
            None
        },
        None => None,
    }
}

/// A run of digits denotes at least what any of its prefixes denotes, and a
/// prefix of a run of digits is a run of digits.
pub proof fn digits_value_of_prefix(s: Seq<char>, k: int)
    requires
        0 <= k <= s.len(),
    ensures
        digits_value(s.take(k)) is None ==> digits_value(s) is None,
        digits_value(s) is Some ==> digits_value(s.take(k))->0 <= digits_value(s)->0,
    decreases s.len() - k,
{
    if k == s.len() {
        assert(s.take(k) =~= s);
    } else {
        digits_value_of_prefix(s.drop_last(), k);
        assert(s.drop_last().take(k) =~= s.take(k));
    }
}

/// Reads a numeral as a 16-bit number.
pub fn parse_u16(text: &str) -> (parsed: Option<u16>)
    ensures
        parsed == decimal_u16(text@),
{
    let mut value: u32 = 0;
    let mut first: bool = true;
    let mut any_digit: bool = false;
    let ghost mut start: int = 0;
    for c in it: text.chars()
        invariant
            it.seq() == text@,
            first == (it.index() == 0),
            start == (if it.index() > 0 && text@[0] == '+' { 1int } else { 0int }),
            start <= it.index(),
            any_digit == (it.index() > start),
            digits_value(text@.subrange(start, it.index() as int)) == Some(value as nat),
            value <= u16::MAX,
    {
        let ghost at: int = it.index() as int;
        if first && c == '+' {
            proof {
                start = 1;
            }
        } else if c >= '0' && c <= '9' {
            let digit: u32 = c as u32 - '0' as u32;
            value = value * 10 + digit;
            any_digit = true;
            proof {
                let upto = text@.subrange(start, at + 1);
                assert(upto.drop_last() =~= text@.subrange(start, at));
            }
            if value > 65535 {
                proof {
                    // what follows can only make the number larger
                    let digits = numeral_digits(text@);
                    assert(digits.take(at + 1 - start) =~= text@.subrange(start, at + 1));
                    digits_value_of_prefix(digits, at + 1 - start);
                }
                return None;
            }
        } else {
            proof {
                // a run of digits does not go on behind what is no digit
                let digits = numeral_digits(text@);
                assert(digits.take(at + 1 - start) =~= text@.subrange(start, at + 1));
                digits_value_of_prefix(digits, at + 1 - start);
            }
            return None;
        }
        first = false;
    }
    assert(numeral_digits(text@) =~= text@.subrange(start, text@.len() as int));
    if any_digit {
        Some(value as u16)
    } else {
        None
    }
}

/// The character that writes the digit `d`.
pub open spec fn digit_char(d: nat) -> char {
    ('0' as int + d) as char
}

/// The decimal numeral of `n`: its digits, the most significant first,
/// without leading zeros.
pub open spec fn decimal_digits(n: nat) -> Seq<char>
    decreases n,
{
    if n < 10 {
        seq![digit_char(n)]
    } else {
        decimal_digits(n / 10).push(digit_char(n % 10))
    }
}

/// The digit `d`, written out.
fn digit_text(d: u32) -> (text: &'static str)
    requires
        d < 10,
    ensures
        text@ == seq![digit_char(d as nat)],
{
    proof {
        reveal_strlit("0");
        reveal_strlit("1");
        reveal_strlit("2");
        reveal_strlit("3");
        reveal_strlit("4");
        reveal_strlit("5");
        reveal_strlit("6");
        reveal_strlit("7");
        reveal_strlit("8");
        reveal_strlit("9");
    }
    if d == 0 {
        "0"
    } else if d == 1 {
        "1"
    } else if d == 2 {
        "2"
    } else if d == 3 {
        "3"
    } else if d == 4 {
        "4"
    } else if d == 5 {
        "5"
    } else if d == 6 {
        "6"
    } else if d == 7 {
        "7"
    } else if d == 8 {
        "8"
    } else {
        "9"
    }
}

/// Writes the decimal numeral of `n` at the end of `out`.
pub fn push_decimal(out: &mut String, n: u32)
    ensures
        final(out)@ == old(out)@ + decimal_digits(n as nat),
    decreases n,
{
    if n >= 10 {
        push_decimal(out, n / 10);
    }
    out.append(digit_text(n % 10));
}

} // verus!
