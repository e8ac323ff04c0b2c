use reredis::types::conversions::{demand, no_match, reply_text};
use reredis::types::redis_values::{to_value, ConversionError, StringParseError};
use reredis::{RedisErrorValue, RedisResult, RedisValue};
use std::convert::TryFrom;

fn text(s: &str) -> RedisResult {
    RedisResult::String(s.as_bytes().to_vec())
}

fn server_error() -> RedisResult {
    RedisResult::Error(RedisErrorValue::new("ERR wrong"))
}

fn returned_error() -> ConversionError {
    ConversionError::RedisReturnedError {
        error: RedisErrorValue::new("ERR wrong"),
    }
}

#[test]
fn an_integer_reply_converts_to_every_integer_type() {
    assert_eq!(Ok(Some(5i64)), Option::<i64>::try_from(RedisResult::Integer(5)));
    assert_eq!(Ok(Some(-5i32)), Option::<i32>::try_from(RedisResult::Integer(-5)));
    assert_eq!(Ok(Some(5i16)), Option::<i16>::try_from(RedisResult::Integer(5)));
    assert_eq!(Ok(Some(5i8)), Option::<i8>::try_from(RedisResult::Integer(5)));
    assert_eq!(Ok(Some(5isize)), Option::<isize>::try_from(RedisResult::Integer(5)));
    assert_eq!(Ok(Some(5u64)), Option::<u64>::try_from(RedisResult::Integer(5)));
    assert_eq!(Ok(Some(5u32)), Option::<u32>::try_from(RedisResult::Integer(5)));
    assert_eq!(Ok(Some(5u16)), Option::<u16>::try_from(RedisResult::Integer(5)));
    assert_eq!(Ok(Some(5u8)), Option::<u8>::try_from(RedisResult::Integer(5)));
    assert_eq!(Ok(Some(5usize)), Option::<usize>::try_from(RedisResult::Integer(5)));
    assert_eq!(Ok(5i64), i64::try_from(RedisResult::Integer(5)));
    assert_eq!(Ok(5u8), u8::try_from(RedisResult::Integer(5)));
}

#[test]
fn an_integer_reply_that_does_not_fit_is_truncated() {
    assert_eq!(Ok(Some(44u8)), Option::<u8>::try_from(RedisResult::Integer(300)));
    assert_eq!(Ok(Some(-1i8)), Option::<i8>::try_from(RedisResult::Integer(255)));
    assert_eq!(Ok(Some(-128i8)), Option::<i8>::try_from(RedisResult::Integer(128)));
    assert_eq!(
        Ok(Some(u64::MAX)),
        Option::<u64>::try_from(RedisResult::Integer(-1))
    );
    assert_eq!(
        Ok(Some(0u32)),
        Option::<u32>::try_from(RedisResult::Integer(1 << 32))
    );
    assert_eq!(
        Ok(Some(i32::MIN)),
        Option::<i32>::try_from(RedisResult::Integer(1 << 31))
    );
    assert_eq!(Ok(65535u16), u16::try_from(RedisResult::Integer(-1)));
    assert_eq!(Ok(-32768i16), i16::try_from(RedisResult::Integer(32768)));
}

#[test]
fn a_text_reply_is_parsed_as_a_number() {
    assert_eq!(Ok(Some(42i64)), Option::<i64>::try_from(text("42")));
    assert_eq!(Ok(Some(-42i32)), Option::<i32>::try_from(text("-42")));
    assert_eq!(Ok(Some(42i16)), Option::<i16>::try_from(text("+42")));
    assert_eq!(Ok(Some(-128i8)), Option::<i8>::try_from(text("-128")));
    assert_eq!(Ok(Some(7isize)), Option::<isize>::try_from(text("007")));
    assert_eq!(
        Ok(Some(u64::MAX)),
        Option::<u64>::try_from(text("18446744073709551615"))
    );
    assert_eq!(Ok(Some(42u32)), Option::<u32>::try_from(text("42")));
    assert_eq!(Ok(Some(65535u16)), Option::<u16>::try_from(text("65535")));
    assert_eq!(Ok(Some(255u8)), Option::<u8>::try_from(text("+255")));
    assert_eq!(Ok(Some(0usize)), Option::<usize>::try_from(text("0")));
    assert_eq!(Ok(42i64), i64::try_from(text("42")));
    assert_eq!(Ok(42i32), i32::try_from(text("42")));
    assert_eq!(Ok(42i16), i16::try_from(text("42")));
    assert_eq!(Ok(42i8), i8::try_from(text("42")));
    assert_eq!(Ok(42isize), isize::try_from(text("42")));
    assert_eq!(Ok(42u64), u64::try_from(text("42")));
    assert_eq!(Ok(42u32), u32::try_from(text("42")));
    assert_eq!(Ok(42u16), u16::try_from(text("42")));
    assert_eq!(Ok(42u8), u8::try_from(text("42")));
    assert_eq!(Ok(42usize), usize::try_from(text("42")));
}

#[test]
fn a_text_reply_that_is_no_number_fails_to_parse() {
    for input in ["", "x", "4 2", "1.5", "-", "+", "128", "-129", "12a"] {
        assert!(
            matches!(
                Option::<i8>::try_from(text(input)),
                Err(ConversionError::CannotParseStringResponse {
                    error: StringParseError::Integer(_)
                })
            ),
            "{:?}",
            input
        );
    }
    for input in ["-1", "-0", "256", ""] {
        assert!(
            matches!(
                Option::<u8>::try_from(text(input)),
                Err(ConversionError::CannotParseStringResponse { .. })
            ),
            "{:?}",
            input
        );
    }
    assert!(matches!(
        i64::try_from(text("9223372036854775808")),
        Err(ConversionError::CannotParseStringResponse { .. })
    ));
    assert!(matches!(
        u64::try_from(text("18446744073709551616")),
        Err(ConversionError::CannotParseStringResponse { .. })
    ));
}

#[test]
fn a_reply_that_is_not_utf8_is_no_number_and_no_text() {
    let bytes = || RedisResult::String(vec![0x31, 0xFF]);
    assert!(matches!(
        Option::<i64>::try_from(bytes()),
        Err(ConversionError::InvalidUtf8String(_))
    ));
    assert!(matches!(
        u8::try_from(bytes()),
        Err(ConversionError::InvalidUtf8String(_))
    ));
    assert!(matches!(
        Option::<String>::try_from(bytes()),
        Err(ConversionError::InvalidUtf8String(_))
    ));
    assert!(matches!(
        String::try_from(bytes()),
        Err(ConversionError::InvalidUtf8String(_))
    ));
    assert!(matches!(
        reply_text(vec![0xC0, 0x80]),
        Err(ConversionError::InvalidUtf8String(_))
    ));
}

#[test]
fn a_byte_string_converts_to_text_and_to_bytes() {
    assert_eq!(
        Ok(Some("héllo".to_string())),
        Option::<String>::try_from(text("héllo"))
    );
    assert_eq!(Ok("".to_string()), String::try_from(text("")));
    assert_eq!(Ok("abc".to_string()), reply_text(b"abc".to_vec()));
    assert_eq!(
        Ok(Some(vec![0x00, 0xFF])),
        Option::<Vec<u8>>::try_from(RedisResult::String(vec![0x00, 0xFF]))
    );
    assert_eq!(
        Ok(vec![0x00, 0xFF]),
        Vec::<u8>::try_from(RedisResult::String(vec![0x00, 0xFF]))
    );
}

#[test]
fn null_is_none_for_optional_targets() {
    assert_eq!(Ok(None), Option::<i64>::try_from(RedisResult::Null));
    assert_eq!(Ok(None), Option::<u8>::try_from(RedisResult::Null));
    assert_eq!(Ok(None), Option::<String>::try_from(RedisResult::Null));
    assert_eq!(Ok(None), Option::<Vec<u8>>::try_from(RedisResult::Null));
    assert_eq!(Ok(None), Option::<bool>::try_from(RedisResult::Null));
    assert_eq!(Ok(None), Option::<()>::try_from(RedisResult::Null));
    assert_eq!(Ok(None), Option::<RedisValue>::try_from(RedisResult::Null));
}

#[test]
fn null_is_a_mismatch_for_the_other_targets() {
    let mismatch = || ConversionError::NoConversionTypeMatch { value: None };
    assert_eq!(Err(mismatch()), i64::try_from(RedisResult::Null));
    assert_eq!(Err(mismatch()), u32::try_from(RedisResult::Null));
    assert_eq!(Err(mismatch()), String::try_from(RedisResult::Null));
    assert_eq!(Err(mismatch()), Vec::<u8>::try_from(RedisResult::Null));
    assert_eq!(Err(mismatch()), bool::try_from(RedisResult::Null));
    assert_eq!(Err(mismatch()), RedisValue::try_from(RedisResult::Null));
    assert_eq!(Ok(()), <()>::try_from(RedisResult::Null));
}

#[test]
fn a_server_error_is_returned_whatever_the_target() {
    assert_eq!(Err(returned_error()), Option::<i64>::try_from(server_error()));
    assert_eq!(Err(returned_error()), i64::try_from(server_error()));
    assert_eq!(Err(returned_error()), Option::<u8>::try_from(server_error()));
    assert_eq!(Err(returned_error()), Option::<String>::try_from(server_error()));
    assert_eq!(Err(returned_error()), String::try_from(server_error()));
    assert_eq!(Err(returned_error()), Option::<Vec<u8>>::try_from(server_error()));
    assert_eq!(Err(returned_error()), Vec::<u8>::try_from(server_error()));
    assert_eq!(Err(returned_error()), Option::<bool>::try_from(server_error()));
    assert_eq!(Err(returned_error()), bool::try_from(server_error()));
    assert_eq!(Err(returned_error()), <()>::try_from(server_error()));
    assert_eq!(Err(returned_error()), Option::<()>::try_from(server_error()));
    assert_eq!(Err(returned_error()), Option::<RedisValue>::try_from(server_error()));
    assert_eq!(Err(returned_error()), RedisValue::try_from(server_error()));
}

#[test]
fn a_reply_of_another_shape_is_a_mismatch_that_holds_the_reply() {
    let array = || RedisResult::Array(vec![RedisResult::Integer(1), RedisResult::Null]);
    let mismatch = || ConversionError::NoConversionTypeMatch {
        value: Some(RedisValue::Array(vec![Some(RedisValue::Integer(1)), None])),
    };
    assert_eq!(Err(mismatch()), Option::<i64>::try_from(array()));
    assert_eq!(Err(mismatch()), Option::<String>::try_from(array()));
    assert_eq!(Err(mismatch()), Vec::<u8>::try_from(array()));
    assert_eq!(Err(mismatch()), bool::try_from(array()));
    assert_eq!(mismatch(), no_match(array()));
    assert_eq!(
        Err(ConversionError::NoConversionTypeMatch {
            value: Some(RedisValue::Integer(3))
        }),
        String::try_from(RedisResult::Integer(3))
    );
    assert_eq!(
        Err(ConversionError::NoConversionTypeMatch {
            value: Some(RedisValue::String(b"1".to_vec()))
        }),
        bool::try_from(text("1"))
    );
}

#[test]
fn an_error_within_a_reply_comes_before_a_mismatch() {
    let array = || {
        RedisResult::Array(vec![
            RedisResult::Integer(1),
            RedisResult::Array(vec![server_error()]),
            RedisResult::Error(RedisErrorValue::new("LATER")),
        ])
    };
    assert_eq!(Err(returned_error()), Option::<i64>::try_from(array()));
    assert_eq!(Err(returned_error()), to_value(array()));
    assert_eq!(returned_error(), no_match(array()));
}

#[test]
fn unit_takes_any_reply_but_an_error() {
    assert_eq!(Ok(()), <()>::try_from(text("OK")));
    assert_eq!(Ok(()), <()>::try_from(RedisResult::Integer(1)));
    assert_eq!(Ok(()), <()>::try_from(RedisResult::Array(vec![server_error()])));
    assert_eq!(Ok(Some(())), Option::<()>::try_from(text("OK")));
}

#[test]
fn a_positive_integer_is_true() {
    assert_eq!(Ok(true), bool::try_from(RedisResult::Integer(1)));
    assert_eq!(Ok(true), bool::try_from(RedisResult::Integer(7)));
    assert_eq!(Ok(false), bool::try_from(RedisResult::Integer(0)));
    assert_eq!(Ok(false), bool::try_from(RedisResult::Integer(-1)));
    assert_eq!(Ok(Some(true)), Option::<bool>::try_from(RedisResult::Integer(1)));
}

#[test]
fn a_reply_becomes_a_value_with_its_shape() {
    assert_eq!(
        Ok(Some(RedisValue::Array(vec![
            Some(RedisValue::String(b"a".to_vec())),
            None,
            Some(RedisValue::Array(vec![Some(RedisValue::Integer(-3))])),
        ]))),
        to_value(RedisResult::Array(vec![
            text("a"),
            RedisResult::Null,
            RedisResult::Array(vec![RedisResult::Integer(-3)]),
        ]))
    );
    assert_eq!(Ok(RedisValue::Integer(1)), RedisValue::try_from(RedisResult::Integer(1)));
}

#[test]
fn demand_turns_none_into_a_mismatch() {
    assert_eq!(Ok(3), demand(Ok(Some(3))));
    assert_eq!(
        Err(ConversionError::NoConversionTypeMatch { value: None }),
        demand::<i32>(Ok(None))
    );
    assert_eq!(Err(returned_error()), demand::<i32>(Err(returned_error())));
}

#[test]
fn an_array_converts_item_by_item() {
    let array = RedisResult::Array(vec![text("1"), RedisResult::Integer(2), text("-3")]);
    assert_eq!(Ok(vec![1i64, 2, -3]), reredis::types::conversions::to_vec::<i64>(array));
    let array = RedisResult::Array(vec![text("a"), RedisResult::Null]);
    assert_eq!(
        Ok(vec![Some("a".to_string()), None]),
        reredis::types::conversions::to_vec::<Option<String>>(array)
    );
    let array = RedisResult::Array(vec![text("a"), RedisResult::Null, server_error()]);
    assert_eq!(
        Err(ConversionError::NoConversionTypeMatch { value: None }),
        reredis::types::conversions::to_vec::<String>(array)
    );
    assert_eq!(
        Err(ConversionError::NoConversionTypeMatch {
            value: Some(RedisValue::Integer(1))
        }),
        reredis::types::conversions::to_vec::<i64>(RedisResult::Integer(1))
    );
    assert_eq!(
        Ok(Vec::<u8>::new()),
        reredis::types::conversions::to_vec::<u8>(RedisResult::Array(Vec::new()))
    );
}
