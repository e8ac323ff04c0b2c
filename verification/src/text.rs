//! The standard library's text routines that the library relies on: UTF-8
//! validation and the parsing of decimal integers. Their contracts restate
//! the standard library's documentation and are not proved here.
use crate::decimal::decimal_in_range;
use std::num::ParseIntError;
use std::str::Utf8Error;
use std::string::FromUtf8Error;
use vstd::prelude::*;
use vstd::string::StringSliceAdditionalSpecFns;
use vstd::utf8::{encode_utf8, valid_utf8};

verus! {

/// `std::num::ParseIntError`, carried through unread.
#[verifier::external_type_specification]
#[verifier::external_body]
pub struct ExParseIntError(ParseIntError);

/// `std::num::ParseFloatError`, carried through unread.
#[verifier::external_type_specification]
#[verifier::external_body]
pub struct ExParseFloatError(std::num::ParseFloatError);

/// `std::str::Utf8Error`, carried through unread.
#[verifier::external_type_specification]
#[verifier::external_body]
pub struct ExUtf8Error(Utf8Error);

/// `std::string::FromUtf8Error`, carried through unread.
#[verifier::external_type_specification]
#[verifier::external_body]
pub struct ExFromUtf8Error(FromUtf8Error);

/// `std::str::from_utf8`: borrows `bytes` as text. It succeeds exactly on
/// well-formed UTF-8, and the text it returns is made of the same bytes.
#[verifier::external_body]
pub(crate) fn str_from_utf8<'a>(bytes: &'a [u8]) -> (r: Result<&'a str, Utf8Error>)
    ensures
        r is Ok <==> valid_utf8(bytes@),
        r matches Ok(text) ==> text.spec_bytes() == bytes@,
{
    std::str::from_utf8(bytes)
}

/// `String::from_utf8`: turns `bytes` into owned text. It succeeds exactly on
/// well-formed UTF-8, and the text it returns is made of the same bytes.
#[verifier::external_body]
pub(crate) fn string_from_utf8(bytes: Vec<u8>) -> (r: Result<String, FromUtf8Error>)
    ensures
        r is Ok <==> valid_utf8(bytes@),
        r matches Ok(text) ==> encode_utf8(text@) == bytes@,
{
    String::from_utf8(bytes)
}

/// `char::to_string`: the text that holds the one character `c`.
#[verifier::external_body]
pub(crate) fn char_to_string(c: char) -> (text: String)
    ensures
        text@ == seq![c],
{
    c.to_string()
}

/// `str::parse::<isize>`: reads decimal text as a signed integer. It succeeds
/// exactly when the text is an optional sign followed by digits whose value
/// fits, and then returns that value.
#[verifier::external_body]
pub(crate) fn parse_isize(text: &str) -> (r: Result<isize, ParseIntError>)
    ensures
        r is Ok <==> decimal_in_range(text.spec_bytes(), true, isize::MIN as int, isize::MAX as int)
            is Some,
        r matches Ok(n) ==> Some(n as int) == decimal_in_range(
            text.spec_bytes(),
            true,
            isize::MIN as int,
            isize::MAX as int,
        ),
{
    text.parse::<isize>()
}

/// `str::parse::<i64>`: reads decimal text as a signed integer. It succeeds
/// exactly when the text is an optional sign followed by digits whose value
/// fits, and then returns that value.
#[verifier::external_body]
pub(crate) fn parse_i64(text: &str) -> (r: Result<i64, ParseIntError>)
    ensures
        r is Ok <==> decimal_in_range(text.spec_bytes(), true, i64::MIN as int, i64::MAX as int)
            is Some,
        r matches Ok(n) ==> Some(n as int) == decimal_in_range(
            text.spec_bytes(),
            true,
            i64::MIN as int,
            i64::MAX as int,
        ),
{
    text.parse::<i64>()
}

/// `str::parse::<i32>`: reads decimal text as a signed integer. It succeeds
/// exactly when the text is an optional sign followed by digits whose value
/// fits, and then returns that value.
#[verifier::external_body]
pub(crate) fn parse_i32(text: &str) -> (r: Result<i32, ParseIntError>)
    ensures
        r is Ok <==> decimal_in_range(text.spec_bytes(), true, i32::MIN as int, i32::MAX as int)
            is Some,
        r matches Ok(n) ==> Some(n as int) == decimal_in_range(
            text.spec_bytes(),
            true,
            i32::MIN as int,
            i32::MAX as int,
        ),
{
    text.parse::<i32>()
}

/// `str::parse::<i16>`: reads decimal text as a signed integer. It succeeds
/// exactly when the text is an optional sign followed by digits whose value
/// fits, and then returns that value.
#[verifier::external_body]
pub(crate) fn parse_i16(text: &str) -> (r: Result<i16, ParseIntError>)
    ensures
        r is Ok <==> decimal_in_range(text.spec_bytes(), true, i16::MIN as int, i16::MAX as int)
            is Some,
        r matches Ok(n) ==> Some(n as int) == decimal_in_range(
            text.spec_bytes(),
            true,
            i16::MIN as int,
            i16::MAX as int,
        ),
{
    text.parse::<i16>()
}

/// `str::parse::<i8>`: reads decimal text as a signed integer. It succeeds
/// exactly when the text is an optional sign followed by digits whose value
/// fits, and then returns that value.
#[verifier::external_body]
pub(crate) fn parse_i8(text: &str) -> (r: Result<i8, ParseIntError>)
    ensures
        r is Ok <==> decimal_in_range(text.spec_bytes(), true, i8::MIN as int, i8::MAX as int)
            is Some,
        r matches Ok(n) ==> Some(n as int) == decimal_in_range(
            text.spec_bytes(),
            true,
            i8::MIN as int,
            i8::MAX as int,
        ),
{
    text.parse::<i8>()
}

/// `str::parse::<usize>`: reads decimal text as an unsigned integer. It succeeds
/// exactly when the text is an optional `+` followed by digits whose value
/// fits, and then returns that value.
#[verifier::external_body]
pub(crate) fn parse_usize(text: &str) -> (r: Result<usize, ParseIntError>)
    ensures
        r is Ok <==> decimal_in_range(
            text.spec_bytes(),
            false,
            usize::MIN as int,
            usize::MAX as int,
        ) is Some,
        r matches Ok(n) ==> Some(n as int) == decimal_in_range(
            text.spec_bytes(),
            false,
            usize::MIN as int,
            usize::MAX as int,
        ),
{
    text.parse::<usize>()
}

/// `str::parse::<u64>`: reads decimal text as an unsigned integer. It succeeds
/// exactly when the text is an optional `+` followed by digits whose value
/// fits, and then returns that value.
#[verifier::external_body]
pub(crate) fn parse_u64(text: &str) -> (r: Result<u64, ParseIntError>)
    ensures
        r is Ok <==> decimal_in_range(text.spec_bytes(), false, u64::MIN as int, u64::MAX as int)
            is Some,
        r matches Ok(n) ==> Some(n as int) == decimal_in_range(
            text.spec_bytes(),
            false,
            u64::MIN as int,
            u64::MAX as int,
        ),
{
    text.parse::<u64>()
}

/// `str::parse::<u32>`: reads decimal text as an unsigned integer. It succeeds
/// exactly when the text is an optional `+` followed by digits whose value
/// fits, and then returns that value.
#[verifier::external_body]
pub(crate) fn parse_u32(text: &str) -> (r: Result<u32, ParseIntError>)
    ensures
        r is Ok <==> decimal_in_range(text.spec_bytes(), false, u32::MIN as int, u32::MAX as int)
            is Some,
        r matches Ok(n) ==> Some(n as int) == decimal_in_range(
            text.spec_bytes(),
            false,
            u32::MIN as int,
            u32::MAX as int,
        ),
{
    text.parse::<u32>()
}

/// `str::parse::<u16>`: reads decimal text as an unsigned integer. It succeeds
/// exactly when the text is an optional `+` followed by digits whose value
/// fits, and then returns that value.
#[verifier::external_body]
pub(crate) fn parse_u16(text: &str) -> (r: Result<u16, ParseIntError>)
    ensures
        r is Ok <==> decimal_in_range(text.spec_bytes(), false, u16::MIN as int, u16::MAX as int)
            is Some,
        r matches Ok(n) ==> Some(n as int) == decimal_in_range(
            text.spec_bytes(),
            false,
            u16::MIN as int,
            u16::MAX as int,
        ),
{
    text.parse::<u16>()
}

/// `str::parse::<u8>`: reads decimal text as an unsigned integer. It succeeds
/// exactly when the text is an optional `+` followed by digits whose value
/// fits, and then returns that value.
#[verifier::external_body]
pub(crate) fn parse_u8(text: &str) -> (r: Result<u8, ParseIntError>)
    ensures
        r is Ok <==> decimal_in_range(text.spec_bytes(), false, u8::MIN as int, u8::MAX as int)
            is Some,
        r matches Ok(n) ==> Some(n as int) == decimal_in_range(
            text.spec_bytes(),
            false,
            u8::MIN as int,
            u8::MAX as int,
        ),
{
    text.parse::<u8>()
}

} // verus!
