use reredis::sans_io::response_parser::{ParseError, ResponseParser};
use reredis::{RedisErrorValue, RedisResult};
use std::str::from_utf8;

// A second reader of the same grammar, which looks at one byte at a time and
// keeps every byte it was given. The parser must agree with it on every
// stream, however the stream is cut.
enum State {
    Waiting,
    Errored,
    Integer { start: usize },
    Simple { start: usize },
    Error { start: usize },
    BulkSize { start: usize },
    Bulk { start: usize, size: usize },
    ArraySize { start: usize },
    Array { length: usize, elements: Vec<RedisResult>, current: Box<State> },
}

fn number(data: &[u8], start: usize, ptr: usize) -> Option<Result<i64, ParseError>> {
    if data[ptr] != b'\r' {
        return None;
    }
    Some(
        from_utf8(&data[start..ptr])
            .map_err(ParseError::CannotConvertToUtf8)
            .and_then(|text| text.parse().map_err(ParseError::CannotParseInteger)),
    )
}

fn read(data: &[u8], ptr: &mut usize, state: &mut State) -> Result<Option<RedisResult>, ParseError> {
    while *ptr < data.len() {
        match state {
            State::Waiting => {
                *state = match data[*ptr] {
                    b':' => State::Integer { start: *ptr + 1 },
                    b'+' => State::Simple { start: *ptr + 1 },
                    b'-' => State::Error { start: *ptr + 1 },
                    b'$' => State::BulkSize { start: *ptr + 1 },
                    b'*' => State::ArraySize { start: *ptr + 1 },
                    any => {
                        *state = State::Errored;
                        return Err(ParseError::InvalidResponseTypePrefix(any as char));
                    }
                };
                *ptr += 1;
            }
            State::Integer { start } => match number(data, *start, *ptr) {
                Some(Ok(n)) => {
                    *state = State::Waiting;
                    *ptr += 2;
                    return Ok(Some(RedisResult::Integer(n)));
                }
                Some(Err(error)) => {
                    *state = State::Errored;
                    return Err(error);
                }
                None => *ptr += 1,
            },
            State::Simple { start } => {
                if data[*ptr] == b'\r' {
                    let bytes = data[*start..*ptr].to_vec();
                    *state = State::Waiting;
                    *ptr += 2;
                    return Ok(Some(RedisResult::String(bytes)));
                }
                *ptr += 1;
            }
            State::Error { start } => {
                if data[*ptr] == b'\r' {
                    let text = from_utf8(&data[*start..*ptr]).map(|text| text.to_string());
                    return match text {
                        Ok(text) => {
                            *state = State::Waiting;
                            *ptr += 2;
                            Ok(Some(RedisResult::Error(RedisErrorValue::new(text))))
                        }
                        Err(error) => {
                            *state = State::Errored;
                            Err(ParseError::CannotConvertToUtf8(error))
                        }
                    };
                }
                *ptr += 1;
            }
            State::BulkSize { start } => match number(data, *start, *ptr) {
                Some(Ok(n)) if n >= 1 => {
                    *ptr += 2;
                    *state = State::Bulk { start: *ptr, size: n as usize };
                }
                Some(Ok(0)) => {
                    *ptr += 4;
                    *state = State::Waiting;
                    return Ok(Some(RedisResult::String(Vec::new())));
                }
                Some(Ok(-1)) => {
                    *ptr += 2;
                    *state = State::Waiting;
                    return Ok(Some(RedisResult::Null));
                }
                Some(Ok(n)) => {
                    *state = State::Errored;
                    return Err(ParseError::InvalidBulkStringLength(n));
                }
                Some(Err(error)) => {
                    *state = State::Errored;
                    return Err(error);
                }
                None => *ptr += 1,
            },
            State::Bulk { start, size } => {
                if *start + *size == *ptr {
                    let bytes = data[*start..*ptr].to_vec();
                    *ptr += 2;
                    *state = State::Waiting;
                    return Ok(Some(RedisResult::String(bytes)));
                }
                *ptr += 1;
            }
            State::ArraySize { start } => match number(data, *start, *ptr) {
                Some(Ok(n)) if n >= 1 => {
                    *ptr += 2;
                    *state = State::Array {
                        length: n as usize,
                        elements: Vec::new(),
                        current: Box::new(State::Waiting),
                    };
                }
                Some(Ok(0)) => {
                    *ptr += 2;
                    *state = State::Waiting;
                    return Ok(Some(RedisResult::Array(Vec::new())));
                }
                Some(Ok(-1)) => {
                    *ptr += 2;
                    *state = State::Waiting;
                    return Ok(Some(RedisResult::Null));
                }
                Some(Ok(n)) => {
                    *state = State::Errored;
                    return Err(ParseError::InvalidArrayLength(n));
                }
                Some(Err(error)) => {
                    *state = State::Errored;
                    return Err(error);
                }
                None => *ptr += 1,
            },
            State::Array { length, elements, current } => match read(data, ptr, current) {
                Ok(Some(element)) => {
                    elements.push(element);
                    if elements.len() == *length {
                        let elements = std::mem::take(elements);
                        *state = State::Waiting;
                        return Ok(Some(RedisResult::Array(elements)));
                    }
                }
                Ok(None) => {}
                Err(error) => {
                    *state = State::Errored;
                    return Err(error);
                }
            },
            State::Errored => return Err(ParseError::ParserIsInAnErrorState),
        }
    }
    Ok(None)
}

struct ByTheByte {
    data: Vec<u8>,
    ptr: usize,
    state: State,
}

impl ByTheByte {
    fn new() -> Self {
        ByTheByte { data: Vec::new(), ptr: 0, state: State::Waiting }
    }

    fn feed(&mut self, bytes: &[u8]) {
        self.data.extend_from_slice(bytes);
    }

    fn get_response(&mut self) -> Result<Option<RedisResult>, ParseError> {
        if let State::Errored = self.state {
            return Err(ParseError::ParserIsInAnErrorState);
        }
        read(&self.data, &mut self.ptr, &mut self.state)
    }
}

struct Dice(u64);

impl Dice {
    fn roll(&mut self, sides: usize) -> usize {
        self.0 = self.0.wrapping_mul(6364136223846793005).wrapping_add(1442695040888963407);
        ((self.0 >> 33) as usize) % sides
    }
}

fn piece(dice: &mut Dice, depth: usize, into: &mut Vec<u8>) {
    match dice.roll(if depth < 3 { 12 } else { 9 }) {
        0 => {
            let n = dice.roll(2000) as i64 - 1000;
            into.extend_from_slice(format!(":{}\r\n", n).as_bytes())
        }
        1 => into.extend_from_slice(b"+OK\r\n"),
        2 => into.extend_from_slice(b"-ERR some text\r\n"),
        3 => into.extend_from_slice(b"$-1\r\n"),
        4 => into.extend_from_slice(b"$0\r\n\r\n"),
        5 => {
            let size = dice.roll(9);
            into.extend_from_slice(format!("${}\r\n", size).as_bytes());
            for _ in 0..size {
                let pick = dice.roll(9);
                into.push(b"ab\r\n:$*\xFF\x00"[pick]);
            }
            into.extend_from_slice(b"\r\n");
        }
        6 => into.extend_from_slice(b"*0\r\n"),
        7 => into.extend_from_slice(b"*-1\r\n"),
        8 => {
            for _ in 0..dice.roll(6) {
                let pick = dice.roll(20);
                into.push(b":+-$*\r\n0123456789 a\xFF"[pick]);
            }
        }
        _ => {
            let count = 1 + dice.roll(3);
            into.extend_from_slice(format!("*{}\r\n", count).as_bytes());
            for _ in 0..count {
                piece(dice, depth + 1, into);
            }
        }
    }
}

#[test]
fn the_parser_agrees_with_a_byte_at_a_time_reader() {
    let mut dice = Dice(2024);
    for _ in 0..3000 {
        let mut stream = Vec::new();
        for _ in 0..1 + dice.roll(6) {
            piece(&mut dice, 0, &mut stream);
        }
        let mut parser = ResponseParser::new();
        let mut reader = ByTheByte::new();
        let mut at = 0;
        while at < stream.len() {
            let most = 1 + dice.roll(12);
            let size = 1 + dice.roll(most);
            let end = std::cmp::min(stream.len(), at + size);
            parser.feed(&stream[at..end]);
            reader.feed(&stream[at..end]);
            at = end;
            for _ in 0..1 + dice.roll(3) {
                let expected = reader.get_response();
                let found = parser.get_response();
                assert_eq!(expected, found, "stream {:?} at {}", stream, at);
            }
        }
    }
}

#[test]
fn the_parser_agrees_with_the_reader_on_streams_fed_whole() {
    let mut dice = Dice(7);
    for _ in 0..2000 {
        let mut stream = Vec::new();
        for _ in 0..1 + dice.roll(8) {
            piece(&mut dice, 0, &mut stream);
        }
        let mut parser = ResponseParser::new();
        let mut reader = ByTheByte::new();
        parser.feed(&stream);
        reader.feed(&stream);
        loop {
            let expected = reader.get_response();
            let found = parser.get_response();
            assert_eq!(expected, found, "stream {:?}", stream);
            match found {
                Ok(Some(_)) => {}
                _ => break,
            }
        }
    }
}
