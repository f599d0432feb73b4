//! Numbers from text: an optional radix prefix, then digits.

use std::num::ParseIntError;
use vstd::prelude::*;

verus! {

/// The error of std's integer parsing. Nothing of it is seen here: it is
/// handed on as it comes.
#[verifier::external_type_specification]
#[verifier::external_body]
pub struct ExParseIntError(std::num::ParseIntError);

/// What `i16::from_str_radix` makes of digits in a radix: the number, or
/// nothing where it gives an error.
pub uninterp spec fn parsed_i16(digits: Seq<char>, radix: u32) -> Option<i16>;

/// What `i32::from_str_radix` makes of digits in a radix: the number, or
/// nothing where it gives an error.
pub uninterp spec fn parsed_i32(digits: Seq<char>, radix: u32) -> Option<i32>;

/// What `u32::from_str_radix` makes of digits in a radix: the number, or
/// nothing where it gives an error.
pub uninterp spec fn parsed_u32(digits: Seq<char>, radix: u32) -> Option<u32>;

/// What `i64::from_str_radix` makes of digits in a radix: the number, or
/// nothing where it gives an error.
pub uninterp spec fn parsed_i64(digits: Seq<char>, radix: u32) -> Option<i64>;

/// What `u64::from_str_radix` makes of digits in a radix: the number, or
/// nothing where it gives an error.
pub uninterp spec fn parsed_u64(digits: Seq<char>, radix: u32) -> Option<u64>;

/// What `i128::from_str_radix` makes of digits in a radix: the number, or
/// nothing where it gives an error.
pub uninterp spec fn parsed_i128(digits: Seq<char>, radix: u32) -> Option<i128>;

/// Calls `i16::from_str_radix`, which panics for a radix that is not from
/// 2 to 36. The contract gives what it returns a name, and claims nothing
/// more of it.
#[verifier::external_body]
pub(crate) fn parse_i16(digits: &str, radix: u32) -> (r: Result<i16, ParseIntError>)
    requires
        2 <= radix <= 36,
    ensures
        match r {
            Ok(number) => parsed_i16(digits@, radix) == Some(number),
            Err(_) => parsed_i16(digits@, radix) is None,
        },
{
    i16::from_str_radix(digits, radix)
}

/// Calls `i32::from_str_radix`, which panics for a radix that is not from
/// 2 to 36. The contract gives what it returns a name, and claims nothing
/// more of it.
#[verifier::external_body]
pub(crate) fn parse_i32(digits: &str, radix: u32) -> (r: Result<i32, ParseIntError>)
    requires
        2 <= radix <= 36,
    ensures
        match r {
            Ok(number) => parsed_i32(digits@, radix) == Some(number),
            Err(_) => parsed_i32(digits@, radix) is None,
        },
{
    i32::from_str_radix(digits, radix)
}

/// Calls `u32::from_str_radix`, which panics for a radix that is not from
/// 2 to 36. The contract gives what it returns a name, and claims nothing
/// more of it.
#[verifier::external_body]
pub(crate) fn parse_u32(digits: &str, radix: u32) -> (r: Result<u32, ParseIntError>)
    requires
        2 <= radix <= 36,
    ensures
        match r {
            Ok(number) => parsed_u32(digits@, radix) == Some(number),
            Err(_) => parsed_u32(digits@, radix) is None,
        },
{
    u32::from_str_radix(digits, radix)
}

/// Calls `i64::from_str_radix`, which panics for a radix that is not from
/// 2 to 36. The contract gives what it returns a name, and claims nothing
/// more of it.
#[verifier::external_body]
pub(crate) fn parse_i64(digits: &str, radix: u32) -> (r: Result<i64, ParseIntError>)
    requires
        2 <= radix <= 36,
    ensures
        match r {
            Ok(number) => parsed_i64(digits@, radix) == Some(number),
            Err(_) => parsed_i64(digits@, radix) is None,
        },
{
    i64::from_str_radix(digits, radix)
}

/// Calls `u64::from_str_radix`, which panics for a radix that is not from
/// 2 to 36. The contract gives what it returns a name, and claims nothing
/// more of it.
#[verifier::external_body]
pub(crate) fn parse_u64(digits: &str, radix: u32) -> (r: Result<u64, ParseIntError>)
    requires
        2 <= radix <= 36,
    ensures
        match r {
            Ok(number) => parsed_u64(digits@, radix) == Some(number),
            Err(_) => parsed_u64(digits@, radix) is None,
        },
{
    u64::from_str_radix(digits, radix)
}

/// Calls `i128::from_str_radix`, which panics for a radix that is not from
/// 2 to 36. The contract gives what it returns a name, and claims nothing
/// more of it.
#[verifier::external_body]
pub(crate) fn parse_i128(digits: &str, radix: u32) -> (r: Result<i128, ParseIntError>)
    requires
        2 <= radix <= 36,
    ensures
        match r {
            Ok(number) => parsed_i128(digits@, radix) == Some(number),
            Err(_) => parsed_i128(digits@, radix) is None,
        },
{
    i128::from_str_radix(digits, radix)
}

/// Calls `str::strip_prefix` with a string as the pattern: where the text
/// starts with the prefix, the contract says that what is returned is the text
/// behind it, and else that nothing is returned, as std documents it.
#[verifier::external_body]
pub(crate) fn strip_prefix<'a>(text: &'a str, prefix: &str) -> (rest: Option<&'a str>)
    ensures
        match rest {
            Some(rest) => text@ == prefix@ + rest@,
            None => !prefix@.is_prefix_of(text@),
        },
{
    text.strip_prefix(prefix)
}

/// The radix in which a number is written: 16, 8 or 2 where the text is
/// longer than a prefix `0x`, `0o` or `0b`, in either case, that it starts
/// with; else 10.
pub open spec fn radix_of(text: Seq<char>) -> u32 {
    if text.len() > 2 && text[0] == '0' {
        if text[1] == 'x' || text[1] == 'X' {
            16
        } else if text[1] == 'o' || text[1] == 'O' {
            8
        } else if text[1] == 'b' || text[1] == 'B' {
            2
        } else {
            10
        }
    } else {
        10
    }
}

/// The digits of a number: the text behind the radix prefix, or all of it
/// where it has none.
pub open spec fn digits_of(text: Seq<char>) -> Seq<char> {
    if radix_of(text) == 10 {
        text
    } else {
        text.skip(2)
    }
}

/// The text behind a prefix of two given characters, if the text starts
/// with the prefix and goes on behind it.
fn behind<'a>(text: &'a str, prefix: &str, first: char, second: char) -> (rest: Option<&'a str>)
    requires
        prefix@.len() == 2,
        prefix@[0] == first,
        prefix@[1] == second,
    ensures
        match rest {
            Some(rest) => text@.len() > 2 && text@[0] == first && text@[1] == second && rest@
                == text@.skip(2),
            None => !(text@.len() > 2 && text@[0] == first && text@[1] == second),
        },
{
    match strip_prefix(text, prefix) {
        Some(rest) => {
            if rest.is_empty() {
                None
            } else {
                Some(rest)
            }
        },
        None => None,
    }
}

/// Splits a number into its radix and its digits.
pub fn split_radix(text: &str) -> (r: (u32, &str))
    ensures
        r.0 == radix_of(text@),
        r.1@ == digits_of(text@),
        2 <= r.0 <= 36,
{
    proof {
        reveal_strlit("0x");
        reveal_strlit("0X");
        reveal_strlit("0o");
        reveal_strlit("0O");
        reveal_strlit("0b");
        reveal_strlit("0B");
    }
    if let Some(rest) = behind(text, "0x", '0', 'x') {
        return (16, rest);
    }
    if let Some(rest) = behind(text, "0X", '0', 'X') {
        return (16, rest);
    }
    if let Some(rest) = behind(text, "0o", '0', 'o') {
        return (8, rest);
    }
    if let Some(rest) = behind(text, "0O", '0', 'O') {
        return (8, rest);
    }
    if let Some(rest) = behind(text, "0b", '0', 'b') {
        return (2, rest);
    }
    if let Some(rest) = behind(text, "0B", '0', 'B') {
        return (2, rest);
    }
    (10, text)
}

} // verus!
