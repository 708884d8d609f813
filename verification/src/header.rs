//! Response headers as the library sees them, and the grammar of the one
//! header whose content it has to understand: a delay in whole seconds.

use vstd::prelude::*;
use vstd::string::*;
use vstd::utf8::is_ascii_chars;

verus! {

/// What looking a header up in a response gave.
#[derive(Debug)]
pub enum HeaderField {
    /// The response has no header of that name.
    Missing,
    /// The header is there, but its value is not printable text.
    Unreadable,
    /// The header's value.
    Text(String),
}

/// The ASCII code of `+`.
const PLUS: u8 = 43;

/// The ASCII code of `0`.
const ZERO: u8 = 48;

/// The ASCII code of `9`.
const NINE: u8 = 57;

/// Whether `c` is one of the ten decimal digits.
pub open spec fn is_digit(c: char) -> bool {
    '0' <= c <= '9'
}

/// The number a decimal digit stands for.
pub open spec fn digit_value(c: char) -> nat {
    (c as u32 - '0' as u32) as nat
}

/// The number written by a run of decimal digits, most significant first.
pub open spec fn decimal_value(digits: Seq<char>) -> nat
    decreases digits.len(),
{
    if digits.len() == 0 {
        0
    } else {
        10 * decimal_value(digits.drop_last()) + digit_value(digits.last())
    }
}

/// Whether every character of `s` is a decimal digit.
pub open spec fn all_digits(s: Seq<char>) -> bool {
    forall|i: int| 0 <= i < s.len() ==> is_digit(#[trigger] s[i])
}

/// The text without the one plus sign that may lead it.
pub open spec fn without_sign(text: Seq<char>) -> Seq<char> {
    if text.len() > 0 && text[0] == '+' {
        text.drop_first()
    } else {
        text
    }
}

/// The delay that `text` writes, if it writes one: an optional plus sign,
/// then at least one decimal digit and nothing else, with a value that a
/// `u64` can hold. Leading zeros are allowed.
pub open spec fn seconds_of(text: Seq<char>) -> Option<u64> {
    let digits = without_sign(text);
    if digits.len() > 0 && all_digits(digits) && decimal_value(digits) <= u64::MAX {
        Some(decimal_value(digits) as u64)
    } else {
        None
    }
}

/// A run of digits is worth at least as much as any of its prefixes.
proof fn lemma_prefix_is_no_larger(digits: Seq<char>, k: int)
    requires
        0 <= k <= digits.len(),
    ensures
        decimal_value(digits.subrange(0, k)) <= decimal_value(digits),
    decreases digits.len(),
{
    if k == digits.len() {
        assert(digits.subrange(0, k) =~= digits);
    } else {
        assert(digits.drop_last().subrange(0, k) =~= digits.subrange(0, k));
        lemma_prefix_is_no_larger(digits.drop_last(), k);
    }
}

/// Reads a delay in seconds, as `seconds_of` defines it.
pub fn parse_seconds(text: &str) -> (seconds: Option<u64>)
    ensures
        seconds == seconds_of(text@),
{
    if !text.is_ascii() {
        proof {
            let at = choose|i: int|
                0 <= i < text@.len() && !('\0' <= #[trigger] text@[i] <= '\u{7f}');
            if without_sign(text@).len() < text@.len() {
                assert(!is_digit(without_sign(text@)[at - 1]));
            }
        }
        return None;
    }
    let bytes = text.as_bytes();
    proof {
        is_ascii_spec_bytes(text);
    }
    let len = bytes.len();
    let start: usize = if len > 0 && bytes[0] == PLUS {
        1
    } else {
        0
    };
    let ghost digits = without_sign(text@);
    if start == len {
        return None;
    }
    let mut value: u64 = 0;
    let mut i: usize = start;
    while i < len
        invariant
            start <= i <= len,
            len == text@.len(),
            len == bytes@.len(),
            is_ascii_chars(text@),
            forall|j: int| 0 <= j < len ==> bytes@[j] == #[trigger] text@[j] as u8,
            digits == without_sign(text@),
            digits =~= text@.subrange(start as int, len as int),
            all_digits(digits.subrange(0, i - start)),
            value == decimal_value(digits.subrange(0, i - start)),
        decreases len - i,
    {
        let byte = bytes[i];
        let ghost seen = digits.subrange(0, i - start);
        let ghost next = digits.subrange(0, i - start + 1);
        if byte < ZERO || byte > NINE {
            assert(!is_digit(digits[i - start]));
            return None;
        }
        assert(next.drop_last() =~= seen);
        let digit: u64 = (byte - ZERO) as u64;
        proof {
            lemma_prefix_is_no_larger(digits, i - start + 1);
        }
        let tens = match value.checked_mul(10) {
            Some(tens) => tens,
            None => {
                return None;
            },
        };
        value = match tens.checked_add(digit) {
            Some(sum) => sum,
            None => {
                return None;
            },
        };
        assert(all_digits(next));
        i += 1;
    }
    assert(digits.subrange(0, len - start) =~= digits);
    Some(value)
}

} // verus!
