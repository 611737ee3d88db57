//! Conversion of the raw string arguments BYOND passes to exported
//! functions.

use vstd::prelude::*;
use vstd::string::{StrSliceExecFns, StringExecFns};

verus! {

/// Number of argument slots filled from BYOND's `argc`: `argc`, at most
/// `slots`. A negative count supplies no argument, so every slot is left as a
/// missing (empty) argument.
pub fn byond_arg_count(argc: i32, slots: usize) -> (count: usize)
    ensures
        count == if argc < 0 {
            0
        } else if (argc as int) < slots {
            argc as int
        } else {
            slots as int
        },
{
    if argc < 0 {
        0
    } else if (argc as u32 as usize) < slots {
        argc as u32 as usize
    } else {
        slots
    }
}

/// Converts one raw BYOND argument into a Rust parameter value.
///
/// Text that does not parse as the destination type gives its default.
pub trait FromByondArg<'a>: Sized {
    /// Convert `arg` into the destination type.
    fn from_byond_arg(arg: &'a str) -> Self;
}

impl<'a> FromByondArg<'a> for &'a str {
    fn from_byond_arg(arg: &'a str) -> (value: &'a str)
        ensures
            value@ == arg@,
    {
        arg
    }
}

impl<'a> FromByondArg<'a> for String {
    fn from_byond_arg(arg: &'a str) -> (value: String)
        ensures
            value@ == arg@,
    {
        String::from_str(arg)
    }
}

impl<'a> FromByondArg<'a> for bool {
    /// `true` exactly for the text `true`; `false` for `false` and for
    /// anything that is not a boolean.
    fn from_byond_arg(arg: &'a str) -> (value: bool)
        ensures
            value == (arg@ == seq!['t', 'r', 'u', 'e']),
    {
        let truth = "true";
        proof {
            reveal_strlit("true");
            assert(truth@ =~= seq!['t', 'r', 'u', 'e']);
        }
        crate::text::text_is(arg, truth)
    }
}

impl<'a> FromByondArg<'a> for char {
    /// The character of a one-character text; `'\0'` otherwise.
    fn from_byond_arg(arg: &'a str) -> (value: char)
        ensures
            value == if arg@.len() == 1 {
                arg@[0]
            } else {
                '\0'
            },
    {
        if arg.unicode_len() == 1 {
            arg.get_char(0)
        } else {
            '\0'
        }
    }
}

/// Whether `digits` is a nonempty run of ASCII decimal digits.
pub open spec fn is_decimal(digits: Seq<char>) -> bool {
    &&& digits.len() > 0
    &&& forall|i: int| 0 <= i < digits.len() ==> '0' <= #[trigger] digits[i] <= '9'
}

/// The value of a run of ASCII decimal digits, most significant first.
pub open spec fn decimal_value(digits: Seq<char>) -> int
    decreases digits.len(),
{
    if digits.len() == 0 {
        0
    } else {
        decimal_value(digits.drop_last()) * 10 + (digits.last() as int - '0' as int)
    }
}

/// The integer an integer type's `from_str` reads from `text`, before its
/// range check: an optional `+` (or `-` where `signed`), then decimal
/// digits, and nothing else.
pub open spec fn decimal_integer(text: Seq<char>, signed: bool) -> Option<int> {
    let rest = text.subrange(1, text.len() as int);
    if text.len() > 0 && text[0] == '-' && signed {
        if is_decimal(rest) {
            Some(-decimal_value(rest))
        } else {
            None
        }
    } else if text.len() > 0 && text[0] == '+' {
        if is_decimal(rest) {
            Some(decimal_value(rest))
        } else {
            None
        }
    } else if is_decimal(text) {
        Some(decimal_value(text))
    } else {
        None
    }
}

/// What an integer type with the range `lo..=hi` parses from `text`: the
/// integer read, when it lies in the range; otherwise nothing.
pub open spec fn parsed_integer(text: Seq<char>, signed: bool, lo: int, hi: int) -> Option<int> {
    match decimal_integer(text, signed) {
        Some(v) => if lo <= v <= hi {
            Some(v)
        } else {
            None
        },
        None => None,
    }
}

/// The number an argument converts to: the parsed value, or 0.
pub open spec fn parsed_or_zero(text: Seq<char>, signed: bool, lo: int, hi: int) -> int {
    match parsed_integer(text, signed, lo, hi) {
        Some(v) => v,
        None => 0,
    }
}

/// Calls `i8::from_str` (`str::parse`), which accepts an optional sign
/// and decimal digits and fails on anything else or on a value out of range.
#[verifier::external_body]
fn parse_i8(text: &str) -> (value: Option<i8>)
    ensures
        match value {
            Some(v) => parsed_integer(text@, true, i8::MIN as int, i8::MAX as int) == Some(v as int),
            None => parsed_integer(text@, true, i8::MIN as int, i8::MAX as int) is None,
        },
{
    text.parse::<i8>().ok()
}

impl<'a> FromByondArg<'a> for i8 {
    /// The parsed number, or 0 when the text is not a `i8`.
    fn from_byond_arg(arg: &'a str) -> (value: i8)
        ensures
            value as int == parsed_or_zero(arg@, true, i8::MIN as int, i8::MAX as int),
    {
        match parse_i8(arg) {
            Some(v) => v,
            None => 0,
        }
    }
}

/// Calls `i16::from_str` (`str::parse`), which accepts an optional sign
/// and decimal digits and fails on anything else or on a value out of range.
#[verifier::external_body]
fn parse_i16(text: &str) -> (value: Option<i16>)
    ensures
        match value {
            Some(v) => parsed_integer(text@, true, i16::MIN as int, i16::MAX as int) == Some(v as int),
            None => parsed_integer(text@, true, i16::MIN as int, i16::MAX as int) is None,
        },
{
    text.parse::<i16>().ok()
}

impl<'a> FromByondArg<'a> for i16 {
    /// The parsed number, or 0 when the text is not a `i16`.
    fn from_byond_arg(arg: &'a str) -> (value: i16)
        ensures
            value as int == parsed_or_zero(arg@, true, i16::MIN as int, i16::MAX as int),
    {
        match parse_i16(arg) {
            Some(v) => v,
            None => 0,
        }
    }
}

/// Calls `i32::from_str` (`str::parse`), which accepts an optional sign
/// and decimal digits and fails on anything else or on a value out of range.
#[verifier::external_body]
fn parse_i32(text: &str) -> (value: Option<i32>)
    ensures
        match value {
            Some(v) => parsed_integer(text@, true, i32::MIN as int, i32::MAX as int) == Some(v as int),
            None => parsed_integer(text@, true, i32::MIN as int, i32::MAX as int) is None,
        },
{
    text.parse::<i32>().ok()
}

impl<'a> FromByondArg<'a> for i32 {
    /// The parsed number, or 0 when the text is not a `i32`.
    fn from_byond_arg(arg: &'a str) -> (value: i32)
        ensures
            value as int == parsed_or_zero(arg@, true, i32::MIN as int, i32::MAX as int),
    {
        match parse_i32(arg) {
            Some(v) => v,
            None => 0,
        }
    }
}

/// Calls `i64::from_str` (`str::parse`), which accepts an optional sign
/// and decimal digits and fails on anything else or on a value out of range.
#[verifier::external_body]
fn parse_i64(text: &str) -> (value: Option<i64>)
    ensures
        match value {
            Some(v) => parsed_integer(text@, true, i64::MIN as int, i64::MAX as int) == Some(v as int),
            None => parsed_integer(text@, true, i64::MIN as int, i64::MAX as int) is None,
        },
{
    text.parse::<i64>().ok()
}

impl<'a> FromByondArg<'a> for i64 {
    /// The parsed number, or 0 when the text is not a `i64`.
    fn from_byond_arg(arg: &'a str) -> (value: i64)
        ensures
            value as int == parsed_or_zero(arg@, true, i64::MIN as int, i64::MAX as int),
    {
        match parse_i64(arg) {
            Some(v) => v,
            None => 0,
        }
    }
}

/// Calls `i128::from_str` (`str::parse`), which accepts an optional sign
/// and decimal digits and fails on anything else or on a value out of range.
#[verifier::external_body]
fn parse_i128(text: &str) -> (value: Option<i128>)
    ensures
        match value {
            Some(v) => parsed_integer(text@, true, i128::MIN as int, i128::MAX as int) == Some(v as int),
            None => parsed_integer(text@, true, i128::MIN as int, i128::MAX as int) is None,
        },
{
    text.parse::<i128>().ok()
}

impl<'a> FromByondArg<'a> for i128 {
    /// The parsed number, or 0 when the text is not a `i128`.
    fn from_byond_arg(arg: &'a str) -> (value: i128)
        ensures
            value as int == parsed_or_zero(arg@, true, i128::MIN as int, i128::MAX as int),
    {
        match parse_i128(arg) {
            Some(v) => v,
            None => 0,
        }
    }
}

/// Calls `isize::from_str` (`str::parse`), which accepts an optional sign
/// and decimal digits and fails on anything else or on a value out of range.
#[verifier::external_body]
fn parse_isize(text: &str) -> (value: Option<isize>)
    ensures
        match value {
            Some(v) => parsed_integer(text@, true, isize::MIN as int, isize::MAX as int) == Some(v as int),
            None => parsed_integer(text@, true, isize::MIN as int, isize::MAX as int) is None,
        },
{
    text.parse::<isize>().ok()
}

impl<'a> FromByondArg<'a> for isize {
    /// The parsed number, or 0 when the text is not a `isize`.
    fn from_byond_arg(arg: &'a str) -> (value: isize)
        ensures
            value as int == parsed_or_zero(arg@, true, isize::MIN as int, isize::MAX as int),
    {
        match parse_isize(arg) {
            Some(v) => v,
            None => 0,
        }
    }
}

/// Calls `u8::from_str` (`str::parse`), which accepts an optional sign
/// and decimal digits and fails on anything else or on a value out of range.
#[verifier::external_body]
fn parse_u8(text: &str) -> (value: Option<u8>)
    ensures
        match value {
            Some(v) => parsed_integer(text@, false, u8::MIN as int, u8::MAX as int) == Some(v as int),
            None => parsed_integer(text@, false, u8::MIN as int, u8::MAX as int) is None,
        },
{
    text.parse::<u8>().ok()
}

impl<'a> FromByondArg<'a> for u8 {
    /// The parsed number, or 0 when the text is not a `u8`.
    fn from_byond_arg(arg: &'a str) -> (value: u8)
        ensures
            value as int == parsed_or_zero(arg@, false, u8::MIN as int, u8::MAX as int),
    {
        match parse_u8(arg) {
            Some(v) => v,
            None => 0,
        }
    }
}

/// Calls `u16::from_str` (`str::parse`), which accepts an optional sign
/// and decimal digits and fails on anything else or on a value out of range.
#[verifier::external_body]
fn parse_u16(text: &str) -> (value: Option<u16>)
    ensures
        match value {
            Some(v) => parsed_integer(text@, false, u16::MIN as int, u16::MAX as int) == Some(v as int),
            None => parsed_integer(text@, false, u16::MIN as int, u16::MAX as int) is None,
        },
{
    text.parse::<u16>().ok()
}

impl<'a> FromByondArg<'a> for u16 {
    /// The parsed number, or 0 when the text is not a `u16`.
    fn from_byond_arg(arg: &'a str) -> (value: u16)
        ensures
            value as int == parsed_or_zero(arg@, false, u16::MIN as int, u16::MAX as int),
    {
        match parse_u16(arg) {
            Some(v) => v,
            None => 0,
        }
    }
}

/// Calls `u32::from_str` (`str::parse`), which accepts an optional sign
/// and decimal digits and fails on anything else or on a value out of range.
#[verifier::external_body]
fn parse_u32(text: &str) -> (value: Option<u32>)
    ensures
        match value {
            Some(v) => parsed_integer(text@, false, u32::MIN as int, u32::MAX as int) == Some(v as int),
            None => parsed_integer(text@, false, u32::MIN as int, u32::MAX as int) is None,
        },
{
    text.parse::<u32>().ok()
}

impl<'a> FromByondArg<'a> for u32 {
    /// The parsed number, or 0 when the text is not a `u32`.
    fn from_byond_arg(arg: &'a str) -> (value: u32)
        ensures
            value as int == parsed_or_zero(arg@, false, u32::MIN as int, u32::MAX as int),
    {
        match parse_u32(arg) {
            Some(v) => v,
            None => 0,
        }
    }
}

/// Calls `u64::from_str` (`str::parse`), which accepts an optional sign
/// and decimal digits and fails on anything else or on a value out of range.
#[verifier::external_body]
fn parse_u64(text: &str) -> (value: Option<u64>)
    ensures
        match value {
            Some(v) => parsed_integer(text@, false, u64::MIN as int, u64::MAX as int) == Some(v as int),
            None => parsed_integer(text@, false, u64::MIN as int, u64::MAX as int) is None,
        },
{
    text.parse::<u64>().ok()
}

impl<'a> FromByondArg<'a> for u64 {
    /// The parsed number, or 0 when the text is not a `u64`.
    fn from_byond_arg(arg: &'a str) -> (value: u64)
        ensures
            value as int == parsed_or_zero(arg@, false, u64::MIN as int, u64::MAX as int),
    {
        match parse_u64(arg) {
            Some(v) => v,
            None => 0,
        }
    }
}

/// Calls `u128::from_str` (`str::parse`), which accepts an optional sign
/// and decimal digits and fails on anything else or on a value out of range.
#[verifier::external_body]
fn parse_u128(text: &str) -> (value: Option<u128>)
    ensures
        match value {
            Some(v) => parsed_integer(text@, false, u128::MIN as int, u128::MAX as int) == Some(v as int),
            None => parsed_integer(text@, false, u128::MIN as int, u128::MAX as int) is None,
        },
{
    text.parse::<u128>().ok()
}

impl<'a> FromByondArg<'a> for u128 {
    /// The parsed number, or 0 when the text is not a `u128`.
    fn from_byond_arg(arg: &'a str) -> (value: u128)
        ensures
            value as int == parsed_or_zero(arg@, false, u128::MIN as int, u128::MAX as int),
    {
        match parse_u128(arg) {
            Some(v) => v,
            None => 0,
        }
    }
}

/// Calls `usize::from_str` (`str::parse`), which accepts an optional sign
/// and decimal digits and fails on anything else or on a value out of range.
#[verifier::external_body]
fn parse_usize(text: &str) -> (value: Option<usize>)
    ensures
        match value {
            Some(v) => parsed_integer(text@, false, usize::MIN as int, usize::MAX as int) == Some(v as int),
            None => parsed_integer(text@, false, usize::MIN as int, usize::MAX as int) is None,
        },
{
    text.parse::<usize>().ok()
}

impl<'a> FromByondArg<'a> for usize {
    /// The parsed number, or 0 when the text is not a `usize`.
    fn from_byond_arg(arg: &'a str) -> (value: usize)
        ensures
            value as int == parsed_or_zero(arg@, false, usize::MIN as int, usize::MAX as int),
    {
        match parse_usize(arg) {
            Some(v) => v,
            None => 0,
        }
    }
}

} // verus!
