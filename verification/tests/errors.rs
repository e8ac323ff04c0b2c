use reredis::types::errors::RedisError;
use reredis::types::redis_values::ConversionError;
use reredis::{RedisErrorValue, RedisValue};
use std::convert::TryFrom;

#[test]
fn an_error_without_a_space_is_all_kind() {
    let error = RedisErrorValue::new("ERR");
    assert_eq!(Some("ERR"), error.kind());
    assert_eq!(None, error.message());
    assert_eq!("ERR", error.contents());
}

#[test]
fn an_empty_error_has_an_empty_kind() {
    let error = RedisErrorValue::new("");
    assert_eq!(Some(""), error.kind());
    assert_eq!(None, error.message());
}

#[test]
fn an_error_is_cut_at_its_first_space_only() {
    let error = RedisErrorValue::new("WRONGTYPE Operation against a key");
    assert_eq!(Some("WRONGTYPE"), error.kind());
    assert_eq!(Some("Operation against a key"), error.message());
    let error = RedisErrorValue::new("ERR ");
    assert_eq!(Some("ERR"), error.kind());
    assert_eq!(Some(""), error.message());
    let error = RedisErrorValue::new(" leading");
    assert_eq!(Some(""), error.kind());
    assert_eq!(Some("leading"), error.message());
}

#[test]
fn an_error_may_hold_any_text() {
    let error = RedisErrorValue::new("ÄRGER größer als €".to_string());
    assert_eq!(Some("ÄRGER"), error.kind());
    assert_eq!(Some("größer als €"), error.message());
    let same = RedisErrorValue::from_text("ÄRGER größer als €".to_string());
    assert_eq!(error, same);
}

#[test]
fn conversion_failures_surface_under_their_own_kind() {
    assert!(matches!(
        RedisError::from_conversion(ConversionError::NoConversionTypeMatch {
            value: Some(RedisValue::Integer(1))
        }),
        RedisError::ConversionError(Some(RedisValue::Integer(1)))
    ));
    assert!(matches!(
        RedisError::from_conversion(ConversionError::NoConversionTypeMatch { value: None }),
        RedisError::ConversionError(None)
    ));
    match RedisError::from_conversion(ConversionError::RedisReturnedError {
        error: RedisErrorValue::new("ERR no"),
    }) {
        RedisError::RedisReturnedError(error) => {
            assert_eq!(Some("ERR"), error.kind());
            assert_eq!(Some("no"), error.message());
        }
        other => panic!("{:?}", other),
    }
    let parse = i8::try_from(reredis::RedisResult::String(b"x".to_vec())).unwrap_err();
    assert!(matches!(
        RedisError::from_conversion(parse),
        RedisError::StringParseError(_)
    ));
    let utf8 = String::try_from(reredis::RedisResult::String(vec![0xFF])).unwrap_err();
    assert!(matches!(
        RedisError::from_conversion(utf8),
        RedisError::InvalidUtf8String(_)
    ));
}
