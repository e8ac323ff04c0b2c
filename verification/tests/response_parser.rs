use reredis::sans_io::response_parser::{ParseError, ResponseParser};
use reredis::{RedisErrorValue, RedisResult};

#[test]
fn can_parse_numbers_from_redis_response() {
    let mut parser = ResponseParser::new();
    parser.feed(":42\r\n".as_bytes());
    assert_eq!(Ok(Some(RedisResult::Integer(42))), parser.get_response());
}

#[test]
fn can_parse_multiple_numbers_in_a_row() {
    let mut parser = ResponseParser::new();
    parser.feed(":42\r\n:123\r\n".as_bytes());
    assert_eq!(Ok(Some(RedisResult::Integer(42))), parser.get_response());
    assert_eq!(Ok(Some(RedisResult::Integer(123))), parser.get_response());
}

#[test]
fn parsing_can_be_resumed_at_any_time() {
    let mut parser = ResponseParser::new();
    parser.feed(":4".as_bytes());
    assert_eq!(Ok(None), parser.get_response());

    parser.feed("12\r".as_bytes());
    assert_eq!(Ok(Some(RedisResult::Integer(412))), parser.get_response());

    parser.feed("\n:1\r\n".as_bytes());
    assert_eq!(Ok(Some(RedisResult::Integer(1))), parser.get_response());

    parser.feed(":".as_bytes());
    assert_eq!(Ok(None), parser.get_response());

    parser.feed("412".as_bytes());
    assert_eq!(Ok(None), parser.get_response());

    parser.feed("\r\n".as_bytes());
    assert_eq!(Ok(Some(RedisResult::Integer(412))), parser.get_response());
}

#[test]
fn doesnt_fail_on_an_empty_string() {
    let mut parser = ResponseParser::new();
    parser.feed("".as_bytes());
    assert_eq!(Ok(None), parser.get_response())
}

#[test]
fn can_parse_a_simple_string() {
    let mut parser = ResponseParser::new();
    parser.feed("+OK\r\n".as_bytes());
    assert_eq!(
        Ok(Some(RedisResult::String(b"OK".to_vec()))),
        parser.get_response()
    );
}

#[test]
fn can_parse_an_error() {
    let mut parser = ResponseParser::new();
    parser.feed("-OK\r\n".as_bytes());
    assert_eq!(
        Ok(Some(RedisResult::Error(RedisErrorValue::new("OK")))),
        parser.get_response()
    );
}

#[test]
fn can_parse_a_bulk_string() {
    let mut parser = ResponseParser::new();
    parser.feed("$2\r\nOK\r\n".as_bytes());
    assert_eq!(
        Ok(Some(RedisResult::String(b"OK".to_vec()))),
        parser.get_response()
    );
}

#[test]
fn can_parse_an_empty_bulk_string() {
    let mut parser = ResponseParser::new();
    parser.feed("$0\r\n\r\n".as_bytes());
    assert_eq!(
        Ok(Some(RedisResult::String(b"".to_vec()))),
        parser.get_response()
    );
}

#[test]
fn doesnt_fail_on_a_negative_bulk_string_size() {
    let mut parser = ResponseParser::new();
    parser.feed("$-100\r\n".as_bytes());
    assert_eq!(
        Err(ParseError::InvalidBulkStringLength(-100)),
        parser.get_response()
    )
}

#[test]
fn can_parse_the_null_bulk_string() {
    let mut parser = ResponseParser::new();
    parser.feed("$-1\r\n".as_bytes());
    assert_eq!(Ok(Some(RedisResult::Null)), parser.get_response());
}

#[test]
fn can_parse_an_array() {
    let mut parser = ResponseParser::new();
    parser.feed(
        "*2\r\n\
         *3\r\n\
         :1\r\n\
         :2\r\n\
         :3\r\n\
         *2\r\n\
         +Foo\r\n\
         -Bar\r\n"
            .as_bytes(),
    );
    assert_eq!(
        Ok(Some(RedisResult::Array(vec![
            RedisResult::Array(vec![
                RedisResult::Integer(1),
                RedisResult::Integer(2),
                RedisResult::Integer(3),
            ]),
            RedisResult::Array(vec![
                RedisResult::String(b"Foo".to_vec()),
                RedisResult::Error(RedisErrorValue::new("Bar")),
            ])
        ]))),
        parser.get_response()
    );
}

#[test]
fn can_parse_an_empty_array() {
    let mut parser = ResponseParser::new();
    parser.feed("*0\r\n".as_bytes());
    assert_eq!(
        Ok(Some(RedisResult::Array(Vec::new()))),
        parser.get_response()
    );
}

#[test]
fn can_parse_a_null_array() {
    let mut parser = ResponseParser::new();
    parser.feed("*-1\r\n".as_bytes());
    assert_eq!(Ok(Some(RedisResult::Null)), parser.get_response());
}

#[test]
fn doesnt_fail_on_a_negative_array_size() {
    let mut parser = ResponseParser::new();
    parser.feed("*-100\r\n".as_bytes());
    assert_eq!(
        Err(ParseError::InvalidArrayLength(-100)),
        parser.get_response()
    )
}

#[test]
fn doesnt_fail_with_array_of_one_zero_int() {
    let mut parser = ResponseParser::new();
    parser.feed("*1\r\n:0\r\n".as_bytes());
    assert_eq!(
        Ok(Some(RedisResult::Array(vec![RedisResult::Integer(0),]))),
        parser.get_response()
    )
}

#[test]
fn doesnt_fail_with_array_of_two_zero_ints() {
    let mut parser = ResponseParser::new();
    parser.feed("*2\r\n:0\r\n:0\r\n".as_bytes());
    assert_eq!(
        Ok(Some(RedisResult::Array(vec![
            RedisResult::Integer(0),
            RedisResult::Integer(0),
        ]))),
        parser.get_response()
    )
}

#[test]
fn returning_ok_then_a_value_then_null() {
    let mut parser = ResponseParser::new();
    parser.feed("+OK\r\n$1\r\n0\r\n$-1\r\n".as_bytes());

    assert_eq!(
        Some(RedisResult::String("OK".into())),
        parser.get_response().unwrap(),
    );

    assert_eq!(
        Some(RedisResult::String("0".into())),
        parser.get_response().unwrap(),
    );

    assert_eq!(Some(RedisResult::Null), parser.get_response().unwrap());
}

#[test]
fn can_handle_very_long_arrays() {
    let mut parser = ResponseParser::new();
    parser.feed(
        "+OK\r\n\
         *28\r\n\
         $2\r\n\
         49\r\n\
         $3\r\n\
         -58\r\n\
         $2\r\n\
         59\r\n\
         $1\r\n\
         7\r\n\
         $2\r\n\
         23\r\n\
         $2\r\n\
         43\r\n\
         $2\r\n\
         77\r\n\
         $3\r\n\
         -36\r\n\
         $2\r\n\
         66\r\n\
         $3\r\n\
         -57\r\n\
         $3\r\n\
         -55\r\n\
         $2\r\n\
         95\r\n\
         $2\r\n\
         51\r\n\
         $3\r\n\
         -74\r\n\
         $3\r\n\
         -47\r\n\
         $3\r\n\
         -90\r\n\
         $3\r\n\
         -65\r\n\
         $2\r\n\
         41\r\n\
         $2\r\n\
         77\r\n\
         $2\r\n\
         47\r\n\
         $2\r\n\
         87\r\n\
         $2\r\n\
         24\r\n\
         $2\r\n\
         25\r\n\
         $2\r\n\
         -2\r\n\
         $3\r\n\
         -27\r\n\
         $2\r\n\
         63\r\n\
         $3\r\n\
         -20\r\n\
         $2\r\n\
         90\r\n"
            .as_bytes(),
    );

    assert_eq!(
        Some(RedisResult::String("OK".into())),
        parser.get_response().unwrap()
    );

    assert_eq!(
        Some(RedisResult::Array(vec![
            RedisResult::String("49".into()),
            RedisResult::String("-58".into()),
            RedisResult::String("59".into()),
            RedisResult::String("7".into()),
            RedisResult::String("23".into()),
            RedisResult::String("43".into()),
            RedisResult::String("77".into()),
            RedisResult::String("-36".into()),
            RedisResult::String("66".into()),
            RedisResult::String("-57".into()),
            RedisResult::String("-55".into()),
            RedisResult::String("95".into()),
            RedisResult::String("51".into()),
            RedisResult::String("-74".into()),
            RedisResult::String("-47".into()),
            RedisResult::String("-90".into()),
            RedisResult::String("-65".into()),
            RedisResult::String("41".into()),
            RedisResult::String("77".into()),
            RedisResult::String("47".into()),
            RedisResult::String("87".into()),
            RedisResult::String("24".into()),
            RedisResult::String("25".into()),
            RedisResult::String("-2".into()),
            RedisResult::String("-27".into()),
            RedisResult::String("63".into()),
            RedisResult::String("-20".into()),
            RedisResult::String("90".into()),
        ])),
        parser.get_response().unwrap()
    )
}
