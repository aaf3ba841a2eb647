//! Reading numbers that were given as text.

use vstd::prelude::*;
use vstd::string::StrSliceExecFns;

verus! {

/// Whether the character is one of the ten decimal digits.
pub open spec fn is_digit(c: char) -> bool {
    48 <= c as u32 <= 57
}

/// The value of a decimal digit; zero for any other character.
pub open spec fn digit_value(c: char) -> nat {
    if is_digit(c) {
        (c as u32 - 48) as nat
    } else {
        0
    }
}

/// Whether the text consists of decimal digits only.
pub open spec fn all_digits(text: Seq<char>) -> bool {
    forall|i: int| 0 <= i < text.len() ==> is_digit(#[trigger] text[i])
}

/// The number that a run of decimal digits denotes.
pub open spec fn decimal_value(digits: Seq<char>) -> nat
    decreases digits.len(),
{
    if digits.len() == 0 {
        0
    } else {
        decimal_value(digits.drop_last()) * 10 + digit_value(digits.last())
    }
}

/// The text without one leading plus sign.
pub open spec fn without_sign(text: Seq<char>) -> Seq<char> {
    if text.len() > 0 && text[0] == '+' {
        text.drop_first()
    } else {
        text
    }
}

/// The 16-bit number that the text denotes: an optional plus sign and then
/// at least one decimal digit and nothing else, with a value that fits.
pub open spec fn parsed_u16(text: Seq<char>) -> Option<u16> {
    let digits = without_sign(text);
    if digits.len() > 0 && all_digits(digits) && decimal_value(digits) <= u16::MAX {
        Some(decimal_value(digits) as u16)
    } else {
        None
    }
}

/// A run of digits denotes at least what any of its beginnings denotes.
proof fn lemma_value_grows(digits: Seq<char>, k: int)
    requires
        0 <= k <= digits.len(),
    ensures
        decimal_value(digits.take(k)) <= decimal_value(digits),
    decreases digits.len() - k,
{
    if k == digits.len() {
        assert(digits.take(k) == digits);
    } else {
        lemma_value_grows(digits, k + 1);
        assert(digits.take(k + 1).drop_last() == digits.take(k));
    }
}

/// Reads a 16-bit number: an optional plus sign, then decimal digits only.
/// Nothing is returned for an empty text, for any other character, or for a
/// value above 65535.
pub fn parse_u16(text: &str) -> (value: Option<u16>)
    ensures
        value == parsed_u16(text@),
{
    let n: usize = text.unicode_len();
    let start: usize = if n > 0 && text.get_char(0) == '+' {
        1
    } else {
        0
    };
    let ghost digits = without_sign(text@);
    proof {
        assert(digits == text@.subrange(start as int, n as int));
    }
    if start == n {
        return None;
    }
    let mut acc: u32 = 0;
    let mut i: usize = start;
    proof {
        assert(digits.take(0).len() == 0);
    }
    while i < n
        invariant
            start <= i <= n,
            n == text@.len(),
            digits == text@.subrange(start as int, n as int),
            digits == without_sign(text@),
            all_digits(digits.take(i - start)),
            acc == decimal_value(digits.take(i - start)),
            acc <= u16::MAX,
        decreases n - i,
    {
        let c = text.get_char(i);
        let v: u32 = c as u32;
        proof {
            assert(digits[i - start] == c);
            assert(digits.take(i - start + 1).drop_last() == digits.take(i - start));
            assert(digits.take(i - start + 1).last() == c);
        }
        if v < 48 || v > 57 {
            proof {
                assert(!is_digit(digits[i - start]));
            }
            return None;
        }
        let next: u32 = acc * 10 + (v - 48);
        proof {
            let longer = digits.take(i - start + 1);
            assert(digit_value(c) == v - 48);
            assert(decimal_value(longer) == decimal_value(longer.drop_last()) * 10 + digit_value(
                longer.last(),
            ));
            assert(next == decimal_value(longer));
            assert forall|j: int| 0 <= j < longer.len() implies is_digit(#[trigger] longer[j]) by {
                if j < i - start {
                    assert(longer[j] == digits.take(i - start)[j]);
                }
            }
        }
        if next > 65535 {
            proof {
                lemma_value_grows(digits, i - start + 1);
            }
            return None;
        }
        acc = next;
        i = i + 1;
    }
    proof {
        assert(digits.take(n - start) == digits);
    }
    Some(acc as u16)
}

/// The port that the text denotes: a 16-bit number other than zero.
pub open spec fn parsed_port(text: Seq<char>) -> Option<u16> {
    match parsed_u16(text) {
        Some(port) => if port == 0 {
            None
        } else {
            Some(port)
        },
        None => None,
    }
}

/// Reads a port number, 1 to 65535.
pub fn parse_port(text: &str) -> (port: Option<u16>)
    ensures
        port == parsed_port(text@),
{
    match parse_u16(text) {
        Some(port) => if port == 0 {
            None
        } else {
            Some(port)
        },
        None => None,
    }
}

/// The volume in percent that the text denotes: a 16-bit number of at most
/// one hundred.
pub open spec fn parsed_percent(text: Seq<char>) -> Option<u16> {
    match parsed_u16(text) {
        Some(percent) => if percent > 100 {
            None
        } else {
            Some(percent)
        },
        None => None,
    }
}

/// Reads a volume in percent, 0 to 100.
pub fn parse_percent(text: &str) -> (percent: Option<u16>)
    ensures
        percent == parsed_percent(text@),
{
    match parse_u16(text) {
        Some(percent) => if percent > 100 {
            None
        } else {
            Some(percent)
        },
        None => None,
    }
}

} // verus!
