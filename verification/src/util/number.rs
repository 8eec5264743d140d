//! Decimal integers as `str::parse` reads them.
use vstd::prelude::*;

verus! {

pub open spec fn is_digit(c: char) -> bool {
    '0' <= c && c <= '9'
}

/// A non-empty run of ASCII decimal digits.
pub open spec fn all_digits(s: Seq<char>) -> bool {
    s.len() > 0 && forall|i: int| 0 <= i < s.len() ==> is_digit(#[trigger] s[i])
}

/// The value of a run of decimal digits.
pub open spec fn digits_value(s: Seq<char>) -> nat
    decreases s.len(),
{
    if s.len() == 0 {
        0
    } else {
        digits_value(s.drop_last()) * 10 + ((s.last() as int) - ('0' as int)) as nat
    }
}

/// The digits of an unsigned literal: the text without one leading '+'.
pub open spec fn unsigned_body(s: Seq<char>) -> Seq<char> {
    if s.len() > 0 && s[0] == '+' {
        s.drop_first()
    } else {
        s
    }
}

/// `s` read as a `u32`: an optional '+' and then only digits, with a value
/// that fits.
pub open spec fn parsed_u32(s: Seq<char>) -> Option<u32> {
    let b = unsigned_body(s);
    if all_digits(b) && digits_value(b) <= u32::MAX {
        Some(digits_value(b) as u32)
    } else {
        None
    }
}

/// `s` read as an `i32`: an optional '+' or '-' and then only digits, with a
/// value that fits.
pub open spec fn parsed_i32(s: Seq<char>) -> Option<i32> {
    if s.len() > 0 && s[0] == '-' {
        let b = s.drop_first();
        if all_digits(b) && digits_value(b) <= 0x8000_0000 {
            Some((-(digits_value(b) as int)) as i32)
        } else {
            None
        }
    } else {
        let b = unsigned_body(s);
        if all_digits(b) && digits_value(b) <= i32::MAX {
            Some(digits_value(b) as i32)
        } else {
            None
        }
    }
}

/// Reads a `u32` with `str::parse::<u32>`.
/// Claimed, as std documents it: the text must be an optional '+' followed by
/// decimal digits only, whose value fits in a `u32`; anything else is an
/// error, given here as `None`.
#[verifier::external_body]
pub(crate) fn parse_u32(s: &str) -> (r: Option<u32>)
    ensures
        r == parsed_u32(s@),
{
    s.parse::<u32>().ok()
}

/// Reads an `i32` with `str::parse::<i32>`.
/// Claimed, as std documents it: the text must be an optional '+' or '-'
/// followed by decimal digits only, whose value fits in an `i32`; anything
/// else is an error, given here as `None`.
#[verifier::external_body]
pub(crate) fn parse_i32(s: &str) -> (r: Option<i32>)
    ensures
        r == parsed_i32(s@),
{
    s.parse::<i32>().ok()
}

} // verus!
