//! Whole numbers read from text.
//!
//! A number is written as an optional sign and one or more decimal digits,
//! with nothing before, between or after them. An unsigned number takes
//! only `+` for a sign.

use vstd::prelude::*;
use vstd::string::*;

verus! {

/// Whether `c` is a decimal digit.
pub open spec fn is_digit(c: char) -> bool {
    '0' <= c && c <= '9'
}

/// The number that a decimal digit stands for.
pub open spec fn digit_value(c: char) -> int {
    c as int - '0' as int
}

/// Whether `text` holds decimal digits only.
pub open spec fn all_digits(text: Seq<char>) -> bool {
    forall|i: int| 0 <= i < text.len() ==> is_digit(#[trigger] text[i])
}

/// The number that a run of decimal digits stands for.
pub open spec fn digits_value(text: Seq<char>) -> int
    decreases text.len(),
{
    if text.len() == 0 {
        0
    } else {
        digits_value(text.drop_last()) * 10 + digit_value(text.last())
    }
}

/// The number written by at least one digit and nothing else.
pub open spec fn plain_number(text: Seq<char>) -> Option<int> {
    if text.len() > 0 && all_digits(text) {
        Some(digits_value(text))
    } else {
        None
    }
}

/// The number that `text` states where only `+` may stand for a sign.
pub open spec fn unsigned_number(text: Seq<char>) -> Option<int> {
    if text.len() > 0 && text[0] == '+' {
        plain_number(text.skip(1))
    } else {
        plain_number(text)
    }
}

/// The number that `text` states where `+` or `-` may stand for a sign.
pub open spec fn signed_number(text: Seq<char>) -> Option<int> {
    if text.len() > 0 && text[0] == '-' {
        match plain_number(text.skip(1)) {
            Some(magnitude) => Some(-magnitude),
            None => None,
        }
    } else {
        unsigned_number(text)
    }
}

/// The value of `text` as a `u32`: the number it states, if it states one
/// and the type holds it.
pub open spec fn u32_text_value(text: Seq<char>) -> Option<u32> {
    match unsigned_number(text) {
        Some(value) => if value <= u32::MAX {
            Some(value as u32)
        } else {
            None
        },
        None => None,
    }
}

/// The value of `text` as an `i32`: the number it states, if it states one
/// and the type holds it.
pub open spec fn i32_text_value(text: Seq<char>) -> Option<i32> {
    match signed_number(text) {
        Some(value) => if i32::MIN <= value <= i32::MAX {
            Some(value as i32)
        } else {
            None
        },
        None => None,
    }
}

/// A run of digits stands for a number that is not negative and not less
/// than any of its beginnings.
pub proof fn lemma_digits_value_grows(text: Seq<char>, cut: int)
    requires
        all_digits(text),
        0 <= cut <= text.len(),
    ensures
        0 <= digits_value(text.take(cut)) <= digits_value(text),
    decreases text.len(),
{
    if text.len() == 0 {
        assert(text.take(cut) =~= text);
    } else if cut == text.len() {
        assert(text.take(cut) =~= text);
        lemma_digits_value_grows(text.drop_last(), cut - 1);
        assert(is_digit(text.last()));
    } else {
        lemma_digits_value_grows(text.drop_last(), cut);
        assert(text.drop_last().take(cut) =~= text.take(cut));
        assert(is_digit(text.last()));
    }
}

/// Reads the digits of `text` from place `start` to its end as a number of
/// at most `limit`.
fn read_digits(text: &str, start: usize, limit: u64) -> (value: Option<u64>)
    requires
        start <= text@.len(),
        limit <= 0x1_0000_0000,
    ensures
        match value {
            Some(n) => n <= limit && plain_number(text@.skip(start as int)) == Some(n as int),
            None => match plain_number(text@.skip(start as int)) {
                Some(v) => v > limit,
                None => true,
            },
        },
{
    let length: usize = text.unicode_len();
    if start >= length {
        return None;
    }
    let ghost digits = text@.skip(start as int);
    let mut value: u64 = 0;
    let mut i: usize = start;
    while i < length
        invariant
            start <= i <= length,
            length == text@.len(),
            digits == text@.skip(start as int),
            limit <= 0x1_0000_0000,
            all_digits(digits.take(i - start)),
            value == digits_value(digits.take(i - start)),
            value <= limit,
        decreases length - i,
    {
        let c: char = text.get_char(i);
        assert(digits[i - start] == c);
        if !(c >= '0' && c <= '9') {
            return None;
        }
        let digit: u64 = (c as u32 - '0' as u32) as u64;
        let next: u64 = value * 10 + digit;
        proof {
            let longer = digits.take(i - start + 1);
            assert(longer.drop_last() =~= digits.take(i - start));
            assert(longer.last() == c);
            assert(next == digits_value(longer));
            assert forall|k: int| 0 <= k < longer.len() implies is_digit(#[trigger] longer[k]) by {
                if k < i - start {
                    assert(digits.take(i - start)[k] == longer[k]);
                }
            }
            if next > limit && all_digits(digits) {
                lemma_digits_value_grows(digits, i - start + 1);
            }
        }
        if next > limit {
            return None;
        }
        value = next;
        i = i + 1;
    }
    proof {
        assert(digits.take(i - start) =~= digits);
    }
    Some(value)
}

/// Reads `text` as a `u32`, as `str::parse::<u32>` does.
pub fn parse_u32(text: &str) -> (value: Option<u32>)
    ensures
        value == u32_text_value(text@),
{
    let length: usize = text.unicode_len();
    let start: usize = if length > 0 && text.get_char(0) == '+' {
        1
    } else {
        0
    };
    proof {
        assert(text@.skip(0) =~= text@);
    }
    match read_digits(text, start, 0xffff_ffff) {
        Some(value) => Some(value as u32),
        None => None,
    }
}

/// Reads `text` as an `i32`, as `str::parse::<i32>` does.
pub fn parse_i32(text: &str) -> (value: Option<i32>)
    ensures
        value == i32_text_value(text@),
{
    let length: usize = text.unicode_len();
    proof {
        assert(text@.skip(0) =~= text@);
    }
    if length > 0 && text.get_char(0) == '-' {
        match read_digits(text, 1, 0x8000_0000) {
            Some(magnitude) => Some((-(magnitude as i64)) as i32),
            None => None,
        }
    } else {
        let start: usize = if length > 0 && text.get_char(0) == '+' {
            1
        } else {
            0
        };
        match read_digits(text, start, 0x7fff_ffff) {
            Some(value) => Some(value as i32),
            None => None,
        }
    }
}

} // verus!
