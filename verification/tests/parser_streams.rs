use reredis::sans_io::response_parser::{ParseError, ResponseParser};
use reredis::{RedisErrorValue, RedisResult};

fn drain(parser: &mut ResponseParser, into: &mut Vec<RedisResult>) -> Option<ParseError> {
    loop {
        match parser.get_response() {
            Ok(Some(value)) => into.push(value),
            Ok(None) => return None,
            Err(error) => return Some(error),
        }
    }
}

fn stream() -> Vec<u8> {
    b"+OK\r\n:-17\r\n$5\r\nhe\r\no\r\n*3\r\n$-1\r\n*2\r\n:1\r\n-ERR no\r\n$0\r\n\r\n*0\r\n*-1\r\n:9\r\n"
        .to_vec()
}

fn expected() -> Vec<RedisResult> {
    vec![
        RedisResult::String(b"OK".to_vec()),
        RedisResult::Integer(-17),
        RedisResult::String(b"he\r\no".to_vec()),
        RedisResult::Array(vec![
            RedisResult::Null,
            RedisResult::Array(vec![
                RedisResult::Integer(1),
                RedisResult::Error(RedisErrorValue::new("ERR no")),
            ]),
            RedisResult::String(Vec::new()),
        ]),
        RedisResult::Array(Vec::new()),
        RedisResult::Null,
        RedisResult::Integer(9),
    ]
}

#[test]
fn a_stream_fed_whole_gives_its_replies_in_order() {
    let mut parser = ResponseParser::new();
    parser.feed(&stream());
    let mut replies = Vec::new();
    assert_eq!(None, drain(&mut parser, &mut replies));
    assert_eq!(expected(), replies);
}

#[test]
fn a_stream_fed_byte_by_byte_gives_the_same_replies() {
    let mut parser = ResponseParser::new();
    let mut replies = Vec::new();
    for byte in stream() {
        parser.feed(&[byte]);
        assert_eq!(None, drain(&mut parser, &mut replies));
    }
    assert_eq!(expected(), replies);
}

#[test]
fn a_stream_gives_the_same_replies_however_it_is_cut() {
    let whole = stream();
    for size in 1..whole.len() + 1 {
        let mut parser = ResponseParser::new();
        let mut replies = Vec::new();
        for chunk in whole.chunks(size) {
            parser.feed(chunk);
            assert_eq!(None, drain(&mut parser, &mut replies));
        }
        assert_eq!(expected(), replies, "chunks of {}", size);
    }
}

#[test]
fn a_stream_cut_in_two_gives_the_same_replies_at_every_cut() {
    let whole = stream();
    for cut in 0..whole.len() + 1 {
        let mut parser = ResponseParser::new();
        let mut replies = Vec::new();
        parser.feed(&whole[..cut]);
        assert_eq!(None, drain(&mut parser, &mut replies));
        parser.feed(&whole[cut..]);
        assert_eq!(None, drain(&mut parser, &mut replies));
        assert_eq!(expected(), replies, "cut at {}", cut);
    }
}

#[test]
fn feeding_without_pulling_loses_nothing() {
    let whole = stream();
    let mut parser = ResponseParser::new();
    for chunk in whole.chunks(3) {
        parser.feed(chunk);
    }
    let mut replies = Vec::new();
    assert_eq!(None, drain(&mut parser, &mut replies));
    assert_eq!(expected(), replies);
}

#[test]
fn an_integer_is_whole_once_its_carriage_return_is_there() {
    let mut parser = ResponseParser::new();
    parser.feed(b":7");
    assert_eq!(Ok(None), parser.get_response());
    parser.feed(b"\r");
    assert_eq!(Ok(Some(RedisResult::Integer(7))), parser.get_response());
    assert_eq!(Ok(None), parser.get_response());
    parser.feed(b"\n");
    assert_eq!(Ok(None), parser.get_response());
    parser.feed(b":8\r\n");
    assert_eq!(Ok(Some(RedisResult::Integer(8))), parser.get_response());
}

#[test]
fn a_bulk_string_waits_for_the_byte_behind_its_contents() {
    let mut parser = ResponseParser::new();
    parser.feed(b"$2\r\nOK");
    assert_eq!(Ok(None), parser.get_response());
    parser.feed(b"\r");
    assert_eq!(
        Ok(Some(RedisResult::String(b"OK".to_vec()))),
        parser.get_response()
    );
    parser.feed(b"\n+next\r\n");
    assert_eq!(
        Ok(Some(RedisResult::String(b"next".to_vec()))),
        parser.get_response()
    );
}

#[test]
fn partial_bulk_contents_give_nothing_yet() {
    let mut parser = ResponseParser::new();
    parser.feed(b"$5\r\nab");
    assert_eq!(Ok(None), parser.get_response());
    parser.feed(b"c");
    assert_eq!(Ok(None), parser.get_response());
    parser.feed(b"de\r\n");
    assert_eq!(
        Ok(Some(RedisResult::String(b"abcde".to_vec()))),
        parser.get_response()
    );
}

#[test]
fn an_empty_bulk_string_is_whole_at_the_end_of_its_header() {
    let mut parser = ResponseParser::new();
    parser.feed(b"$0\r");
    assert_eq!(Ok(Some(RedisResult::String(Vec::new()))), parser.get_response());
    assert_eq!(0, parser.buffer_len());
    parser.feed(b"\n\r");
    assert_eq!(Ok(None), parser.get_response());
    parser.feed(b"\n:5\r\n");
    assert_eq!(Ok(Some(RedisResult::Integer(5))), parser.get_response());
}

#[test]
fn bulk_contents_are_kept_byte_for_byte() {
    let mut parser = ResponseParser::new();
    parser.feed(b"$4\r\n\x00\xFF\r\n\r\n");
    assert_eq!(
        Ok(Some(RedisResult::String(vec![0x00, 0xFF, b'\r', b'\n']))),
        parser.get_response()
    );
}

#[test]
fn a_simple_string_is_not_read_as_text() {
    let mut parser = ResponseParser::new();
    parser.feed(b"+\xFF\xFE\r\n");
    assert_eq!(
        Ok(Some(RedisResult::String(vec![0xFF, 0xFE]))),
        parser.get_response()
    );
}

#[test]
fn an_array_holds_its_items_in_the_order_of_the_stream() {
    let mut parser = ResponseParser::new();
    parser.feed(b"*4\r\n:3\r\n:1\r\n:2\r\n:0\r\n");
    assert_eq!(
        Ok(Some(RedisResult::Array(vec![
            RedisResult::Integer(3),
            RedisResult::Integer(1),
            RedisResult::Integer(2),
            RedisResult::Integer(0),
        ]))),
        parser.get_response()
    );
    assert_eq!(Ok(None), parser.get_response());
}

#[test]
fn an_array_that_lacks_an_item_gives_nothing_yet() {
    let mut parser = ResponseParser::new();
    parser.feed(b"*3\r\n:1\r\n:2\r\n");
    assert_eq!(Ok(None), parser.get_response());
    assert_eq!(Ok(None), parser.get_response());
    parser.feed(b":3\r\n");
    assert_eq!(
        Ok(Some(RedisResult::Array(vec![
            RedisResult::Integer(1),
            RedisResult::Integer(2),
            RedisResult::Integer(3),
        ]))),
        parser.get_response()
    );
}

#[test]
fn nulls_may_stand_in_arrays() {
    let mut parser = ResponseParser::new();
    parser.feed(b"*2\r\n$-1\r\n*-1\r\n");
    assert_eq!(
        Ok(Some(RedisResult::Array(vec![
            RedisResult::Null,
            RedisResult::Null
        ]))),
        parser.get_response()
    );
}

#[test]
fn the_buffer_holds_what_is_left_after_a_reply() {
    let mut parser = ResponseParser::new();
    assert_eq!(0, parser.buffer_len());
    parser.feed(b":42\r\n:12");
    assert_eq!(8, parser.buffer_len());
    assert_eq!(Ok(Some(RedisResult::Integer(42))), parser.get_response());
    assert_eq!(3, parser.buffer_len());
    assert_eq!(Ok(None), parser.get_response());
    assert_eq!(3, parser.buffer_len());
    parser.feed(b"3\r\n");
    assert_eq!(6, parser.buffer_len());
    assert_eq!(Ok(Some(RedisResult::Integer(123))), parser.get_response());
    assert_eq!(0, parser.buffer_len());
}

#[test]
fn the_buffer_is_empty_after_the_last_reply_of_many() {
    let mut parser = ResponseParser::new();
    parser.feed(&stream());
    let mut replies = Vec::new();
    assert_eq!(None, drain(&mut parser, &mut replies));
    assert_eq!(0, parser.buffer_len());
}

#[test]
fn integers_cover_the_signed_64_bit_range() {
    let mut parser = ResponseParser::new();
    parser.feed(b":9223372036854775807\r\n:-9223372036854775808\r\n:+5\r\n:-0\r\n:007\r\n");
    assert_eq!(
        Ok(Some(RedisResult::Integer(i64::MAX))),
        parser.get_response()
    );
    assert_eq!(
        Ok(Some(RedisResult::Integer(i64::MIN))),
        parser.get_response()
    );
    assert_eq!(Ok(Some(RedisResult::Integer(5))), parser.get_response());
    assert_eq!(Ok(Some(RedisResult::Integer(0))), parser.get_response());
    assert_eq!(Ok(Some(RedisResult::Integer(7))), parser.get_response());
}

#[test]
fn an_integer_out_of_range_is_a_fault() {
    let mut parser = ResponseParser::new();
    parser.feed(b":9223372036854775808\r\n");
    assert!(matches!(
        parser.get_response(),
        Err(ParseError::CannotParseInteger(_))
    ));
    assert_eq!(
        Err(ParseError::ParserIsInAnErrorState),
        parser.get_response()
    );
}

#[test]
fn digits_that_are_no_number_are_a_fault() {
    for input in [&b":\r\n"[..], b":12a\r\n", b": 1\r\n", b":-\r\n", b":+\r\n", b"$x\r\n", b"*1.5\r\n"] {
        let mut parser = ResponseParser::new();
        parser.feed(input);
        assert!(matches!(
            parser.get_response(),
            Err(ParseError::CannotParseInteger(_))
        ));
    }
}

#[test]
fn a_number_that_is_not_utf8_is_a_fault() {
    let mut parser = ResponseParser::new();
    parser.feed(b":\xFF\r\n");
    assert!(matches!(
        parser.get_response(),
        Err(ParseError::CannotConvertToUtf8(_))
    ));
}

#[test]
fn an_error_that_is_not_utf8_is_a_fault() {
    let mut parser = ResponseParser::new();
    parser.feed(b"-ERR \xFF\r\n");
    assert!(matches!(
        parser.get_response(),
        Err(ParseError::CannotConvertToUtf8(_))
    ));
    assert_eq!(
        Err(ParseError::ParserIsInAnErrorState),
        parser.get_response()
    );
}

#[test]
fn a_byte_that_is_no_prefix_is_a_fault() {
    let mut parser = ResponseParser::new();
    parser.feed(b"x");
    assert_eq!(
        Err(ParseError::InvalidResponseTypePrefix('x')),
        parser.get_response()
    );
    let mut parser = ResponseParser::new();
    parser.feed(b"\xE9");
    assert_eq!(
        Err(ParseError::InvalidResponseTypePrefix('\u{e9}')),
        parser.get_response()
    );
}

#[test]
fn lengths_below_minus_one_are_faults() {
    let mut parser = ResponseParser::new();
    parser.feed(b"$-2\r\n");
    assert_eq!(
        Err(ParseError::InvalidBulkStringLength(-2)),
        parser.get_response()
    );
    let mut parser = ResponseParser::new();
    parser.feed(b"*-2\r\n");
    assert_eq!(
        Err(ParseError::InvalidArrayLength(-2)),
        parser.get_response()
    );
}

#[test]
fn a_fault_in_an_array_is_the_fault_of_the_array() {
    let mut parser = ResponseParser::new();
    parser.feed(b"*2\r\n:1\r\n$-7\r\n");
    assert_eq!(
        Err(ParseError::InvalidBulkStringLength(-7)),
        parser.get_response()
    );
    assert_eq!(
        Err(ParseError::ParserIsInAnErrorState),
        parser.get_response()
    );
}

#[test]
fn no_call_leaves_the_error_state() {
    let mut parser = ResponseParser::new();
    parser.feed(b"?");
    assert!(parser.get_response().is_err());
    for _ in 0..3 {
        parser.feed(b":1\r\n");
        assert_eq!(
            Err(ParseError::ParserIsInAnErrorState),
            parser.get_response()
        );
    }
}

#[test]
fn replies_before_a_fault_are_handed_out() {
    let mut parser = ResponseParser::new();
    parser.feed(b":1\r\n:2\r\n!");
    let mut replies = Vec::new();
    assert_eq!(
        Some(ParseError::InvalidResponseTypePrefix('!')),
        drain(&mut parser, &mut replies)
    );
    assert_eq!(
        vec![RedisResult::Integer(1), RedisResult::Integer(2)],
        replies
    );
}

#[test]
fn any_bytes_can_be_fed() {
    let mut seed: u32 = 12345;
    for _ in 0..200 {
        let mut parser = ResponseParser::new();
        for _ in 0..20 {
            let mut chunk = Vec::new();
            for _ in 0..7 {
                seed = seed.wrapping_mul(1664525).wrapping_add(1013904223);
                let pick = (seed >> 24) as usize % 12;
                chunk.push(b":+-$*\r\n019a \xFF"[pick % 13]);
            }
            parser.feed(&chunk);
            let mut replies = Vec::new();
            if drain(&mut parser, &mut replies).is_some() {
                break;
            }
        }
    }
}

fn encode(value: &RedisResult, into: &mut Vec<u8>) {
    match value {
        RedisResult::Integer(n) => into.extend_from_slice(format!(":{}\r\n", n).as_bytes()),
        RedisResult::String(bytes) => {
            into.extend_from_slice(format!("${}\r\n", bytes.len()).as_bytes());
            into.extend_from_slice(bytes);
            into.extend_from_slice(b"\r\n");
        }
        RedisResult::Array(items) => {
            into.extend_from_slice(format!("*{}\r\n", items.len()).as_bytes());
            for item in items {
                encode(item, into);
            }
        }
        RedisResult::Null => into.extend_from_slice(b"$-1\r\n"),
        RedisResult::Error(error) => {
            into.extend_from_slice(format!("-{}\r\n", error.contents()).as_bytes())
        }
    }
}

#[test]
fn a_value_that_is_written_as_a_frame_is_read_back() {
    let values = vec![
        RedisResult::Integer(0),
        RedisResult::Integer(i64::MIN),
        RedisResult::String(Vec::new()),
        RedisResult::String(b"\r\n$5\r\n".to_vec()),
        RedisResult::String((0..=255).collect()),
        RedisResult::Null,
        RedisResult::Array(Vec::new()),
        RedisResult::Array(vec![
            RedisResult::Array(vec![RedisResult::Array(vec![RedisResult::Null])]),
            RedisResult::String(b"x".to_vec()),
            RedisResult::Integer(-1),
        ]),
    ];
    for value in values {
        let mut bytes = Vec::new();
        encode(&value, &mut bytes);
        let mut parser = ResponseParser::new();
        parser.feed(&bytes);
        assert_eq!(Ok(Some(value)), parser.get_response());
        assert_eq!(0, parser.buffer_len());
        assert_eq!(Ok(None), parser.get_response());
    }
}
