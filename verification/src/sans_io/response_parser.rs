//! The incremental response parser: a state machine that is fed bytes in
//! chunks of any size and hands out one decoded reply at a time.
use crate::sans_io::grammar::{
    frame, frames, lemma_frame_len, lemma_frame_shift, lemma_frames_extend,
    lemma_frames_stuck, lemma_line_end, lemma_line_end_extend, lemma_line_end_resume, line_end,
    line_number, ParseFault, Scan, ScanItems, ARRAY_PREFIX, BULK_PREFIX, CR, ERROR_PREFIX,
    INTEGER_PREFIX, SIMPLE_PREFIX,
};
use crate::text::{parse_i64, str_from_utf8};
use crate::types::redis_values::{
    lemma_array_view, results_view, RedisErrorValue, RedisResult, RedisResultView,
};
use std::num::ParseIntError;
use std::str::Utf8Error;
use vstd::prelude::*;
use vstd::slice::{slice_subrange, slice_to_vec};

verus! {

/// Why the parser gave up on a byte stream.
#[derive(Debug, PartialEq, Eq)]
pub enum ParseError {
    /// The digits of an integer or of a length do not denote a signed
    /// 64-bit number.
    CannotParseInteger(ParseIntError),
    /// A line that must be text is not well-formed UTF-8.
    CannotConvertToUtf8(Utf8Error),
    /// A bulk byte-string announces a negative length other than -1.
    InvalidBulkStringLength(i64),
    /// An array announces a negative length other than -1.
    InvalidArrayLength(i64),
    /// A frame begins with a character that selects no kind of frame.
    InvalidResponseTypePrefix(char),
    /// The parser met a fault earlier and decodes nothing more.
    ParserIsInAnErrorState,
}

impl View for ParseError {
    type V = ParseFault;

    open spec fn view(&self) -> ParseFault {
        match self {
            ParseError::CannotParseInteger(_) => ParseFault::CannotParseInteger,
            ParseError::CannotConvertToUtf8(_) => ParseFault::CannotConvertToUtf8,
            ParseError::InvalidBulkStringLength(n) => ParseFault::InvalidBulkStringLength(*n),
            ParseError::InvalidArrayLength(n) => ParseFault::InvalidArrayLength(*n),
            ParseError::InvalidResponseTypePrefix(c) => ParseFault::InvalidResponseTypePrefix(*c),
            ParseError::ParserIsInAnErrorState => ParseFault::ParserIsInAnErrorState,
        }
    }
}

/// Where the parser stands within the frame it is decoding.
#[derive(Debug)]
enum ResponseParserState {
    /// Between frames: the next byte is a prefix.
    Waiting,
    /// A fault was met. No transition leaves this state.
    Errored,
    /// Inside the digits of an integer that begin at `start`.
    ParsingInteger { start: usize },
    /// Inside a simple byte-string that begins at `start`.
    ParsingSimpleString { start: usize },
    /// Inside the text of an error that begins at `start`.
    ParsingError { start: usize },
    /// Inside the length of a bulk byte-string, whose digits begin at `start`.
    ParsingBulkStringSize { start: usize },
    /// Inside the contents of a bulk byte-string of `size` bytes. The
    /// carriage return that ends its header is at `header_end`, and the
    /// contents begin two bytes later.
    ParsingBulkString { header_end: usize, size: u64 },
    /// Inside the length of an array, whose digits begin at `start`.
    ParsingArraySize { start: usize },
    /// Inside an array that still lacks `remaining` items. `elements` holds
    /// the items decoded so far and `cur_state` says where the parser stands
    /// within the next one.
    ParsingArray {
        remaining: u64,
        elements: Vec<RedisResult>,
        cur_state: Box<ResponseParserState>,
    },
}

/// What the states that read a line have in common: the frame begins at
/// `base` with `prefix`, the line begins at `start`, and no carriage return
/// was seen up to `pos`.
spec fn in_line(s: Seq<u8>, base: int, pos: int, prefix: u8, start: usize) -> bool {
    &&& 0 <= base < s.len()
    &&& s[base] == prefix
    &&& start == base + 1
    &&& start <= pos <= s.len()
    &&& forall|i: int| start <= i < pos ==> s[i] != CR
}

/// What the states that follow a header have in common: the frame begins at
/// `base` with `prefix`, and its header line ends at `end` and announces `n`.
spec fn after_header(s: Seq<u8>, base: int, prefix: u8, end: int, n: i64) -> bool {
    &&& 0 <= base < s.len()
    &&& s[base] == prefix
    &&& end == line_end(s, base + 1)
    &&& end < s.len()
    &&& line_number(s.subrange(base + 1, end)) == Ok::<i64, ParseFault>(n)
    &&& n >= 1
}

impl ResponseParserState {
    /// True when this state is what reading the stream `s` from `base` up to
    /// `pos` leaves behind, for a frame that begins at `base`.
    spec fn follows(self, s: Seq<u8>, base: int, pos: int) -> bool
        decreases self,
    {
        match self {
            ResponseParserState::Waiting => base >= 0 && pos == base,
            ResponseParserState::Errored => false,
            ResponseParserState::ParsingInteger { start } => in_line(
                s,
                base,
                pos,
                INTEGER_PREFIX,
                start,
            ),
            ResponseParserState::ParsingSimpleString { start } => in_line(
                s,
                base,
                pos,
                SIMPLE_PREFIX,
                start,
            ),
            ResponseParserState::ParsingError { start } => in_line(
                s,
                base,
                pos,
                ERROR_PREFIX,
                start,
            ),
            ResponseParserState::ParsingBulkStringSize { start } => in_line(
                s,
                base,
                pos,
                BULK_PREFIX,
                start,
            ),
            ResponseParserState::ParsingArraySize { start } => in_line(
                s,
                base,
                pos,
                ARRAY_PREFIX,
                start,
            ),
            ResponseParserState::ParsingBulkString { header_end, size } => {
                &&& after_header(s, base, BULK_PREFIX, header_end as int, size as i64)
                &&& size <= i64::MAX
                &&& header_end + 2 <= pos <= header_end + 2 + size
                &&& (pos <= s.len() || pos == header_end + 2)
            },
            ResponseParserState::ParsingArray { remaining, elements, cur_state } => {
                let end = line_end(s, base + 1);
                &&& remaining >= 1
                &&& elements@.len() + remaining <= i64::MAX
                &&& after_header(s, base, ARRAY_PREFIX, end, (elements@.len() + remaining) as i64)
                &&& frames(s, end + 2, elements@.len()) matches ScanItems::Complete { values, len }
                &&& values == results_view(elements@)
                &&& cur_state.follows(s, end + 2 + len, pos)
            },
        }
    }
}

/// Appending bytes to the stream does not disturb a state.
proof fn lemma_follows_extend(
    state: ResponseParserState,
    s: Seq<u8>,
    t: Seq<u8>,
    base: int,
    pos: int,
)
    requires
        state.follows(s, base, pos),
    ensures
        state.follows(s + t, base, pos),
    decreases state,
{
    let u = s + t;
    match state {
        ResponseParserState::ParsingBulkString { header_end, size } => {
            lemma_line_end(s, base + 1);
            lemma_line_end_extend(s, t, base + 1);
            assert(u.subrange(base + 1, header_end as int) =~= s.subrange(
                base + 1,
                header_end as int,
            ));
        },
        ResponseParserState::ParsingArray { remaining, elements, cur_state } => {
            let end = line_end(s, base + 1);
            lemma_line_end(s, base + 1);
            lemma_line_end_extend(s, t, base + 1);
            assert(u.subrange(base + 1, end) =~= s.subrange(base + 1, end));
            lemma_frames_extend(s, t, end + 2, elements@.len());
            let len = frames(s, end + 2, elements@.len())->Complete_len;
            lemma_follows_extend(*cur_state, s, t, end + 2 + len, pos);
        },
        _ => {},
    }
}

/// A state that has read the stream to its end stands inside a frame that
/// is not whole yet.
proof fn lemma_pending(state: ResponseParserState, s: Seq<u8>, base: int, pos: int)
    requires
        state.follows(s, base, pos),
        pos >= s.len(),
    ensures
        frame(s, base) is Incomplete,
    decreases state,
{
    match state {
        ResponseParserState::Waiting => {},
        ResponseParserState::Errored => {},
        ResponseParserState::ParsingBulkString { header_end, size } => {},
        ResponseParserState::ParsingArray { remaining, elements, cur_state } => {
            let end = line_end(s, base + 1);
            lemma_line_end(s, base + 1);
            let count = elements@.len();
            let len = frames(s, end + 2, count)->Complete_len;
            lemma_pending(*cur_state, s, end + 2 + len, pos);
            lemma_frames_stuck(s, end + 2, count, count + remaining as nat);
        },
        _ => {
            lemma_line_end(s, base + 1);
        },
    }
}

/// Finds the carriage return that ends the line from `from` on: its index,
/// or the length of `data` when the line has not ended yet.
fn find_line_end(data: &[u8], from: usize) -> (end: usize)
    requires
        from <= data.len(),
    ensures
        end == line_end(data@, from as int),
        from <= end <= data.len(),
{
    let mut end: usize = from;
    proof {
        lemma_line_end(data@, from as int);
    }
    while end < data.len() && data[end] != CR
        invariant
            from <= end <= data.len(),
            line_end(data@, from as int) == line_end(data@, end as int),
        decreases data.len() - end,
    {
        end += 1;
    }
    end
}

/// Reads the line `data[start..end]` as a signed 64-bit number in decimal.
fn parse_integer(data: &[u8], start: usize, end: usize) -> (r: Result<i64, ParseError>)
    requires
        start <= end <= data.len(),
    ensures
        match line_number(data@.subrange(start as int, end as int)) {
            Ok(n) => r == Ok::<i64, ParseError>(n),
            Err(fault) => r is Err && r->Err_0@ == fault,
        },
{
    let line = slice_subrange(data, start, end);
    match str_from_utf8(line) {
        Ok(text) => match parse_i64(text) {
            Ok(n) => Ok(n),
            Err(error) => Err(ParseError::CannotParseInteger(error)),
        },
        Err(error) => Err(ParseError::CannotConvertToUtf8(error)),
    }
}

/// Copies the line `data[start..end]`.
fn parse_simple_string(data: &[u8], start: usize, end: usize) -> (r: Vec<u8>)
    requires
        start <= end <= data.len(),
    ensures
        r@ == data@.subrange(start as int, end as int),
{
    slice_to_vec(slice_subrange(data, start, end))
}

/// Moves the position `by` bytes on. What lies beyond the end of the stream
/// is owed: it is taken from the bytes that come next.
fn advance(len: usize, ptr: &mut usize, owed: &mut usize, by: usize)
    requires
        *old(ptr) < len,
        *old(owed) == 0,
        1 <= by <= 4,
    ensures
        *final(ptr) + *final(owed) == *old(ptr) + by,
        *final(ptr) <= len,
        *final(owed) > 0 ==> *final(ptr) == len,
        *final(owed) <= 3,
{
    let room = len - *ptr;
    if by <= room {
        *ptr = *ptr + by;
    } else {
        *owed = by - room;
        *ptr = len;
    }
}

/// What one call of the parser hands back: a reply, nothing yet, or a fault.
type Pulled = Result<Option<RedisResult>, ParseError>;

/// True when `outcome`, the position `pos` and `state` are what the grammar
/// says of the frame that begins at `base`: its value, with the position
/// past it; nothing yet, with the state to resume from; or the fault, with
/// the state `Errored`.
spec fn settled(
    s: Seq<u8>,
    base: int,
    outcome: Pulled,
    pos: int,
    state: ResponseParserState,
) -> bool {
    match frame(s, base) {
        Scan::Complete { value, len } => {
            &&& outcome matches Ok(Some(result)) && result@ == value
            &&& pos == base + len
            &&& state is Waiting
        },
        Scan::Incomplete => {
            &&& outcome matches Ok(None)
            &&& state.follows(s, base, pos)
            &&& pos >= s.len()
        },
        Scan::Invalid { fault } => {
            &&& outcome matches Err(error) && error@ == fault
            &&& state is Errored
        },
    }
}

/// True when a step from the position `from` ended as it should: either it
/// settled the frame, or it moved on within it.
spec fn stepped(
    s: Seq<u8>,
    base: int,
    from: int,
    r: Option<Pulled>,
    ptr: usize,
    owed: usize,
    state: ResponseParserState,
) -> bool {
    &&& ptr <= s.len()
    &&& owed <= 3
    &&& owed > 0 ==> ptr == s.len()
    &&& match r {
        Some(outcome) => {
            &&& settled(s, base, outcome, ptr + owed, state)
            &&& outcome matches Ok(Some(_)) ==> ptr + owed > from
        },
        None => state.follows(s, base, ptr + owed) && ptr + owed > from,
    }
}

/// True when the line of the frame at `base` has been read to its end: it
/// begins at `start`, behind `prefix`, and `end` is its carriage return.
spec fn line_read(s: Seq<u8>, base: int, prefix: u8, start: usize, end: usize) -> bool {
    &&& 0 <= base < s.len()
    &&& s[base] == prefix
    &&& start == base + 1
    &&& end == line_end(s, base + 1)
    &&& start <= end < s.len()
}

/// Reads the prefix of a frame and enters the state that decodes it.
fn step_waiting(
    data: &[u8],
    ptr: &mut usize,
    state: &mut ResponseParserState,
    Ghost(base): Ghost<int>,
) -> (r: Option<Pulled>)
    requires
        *old(ptr) < data.len(),
        *old(state) is Waiting,
        old(state).follows(data@, base, *old(ptr) as int),
    ensures
        stepped(data@, base, *old(ptr) as int, r, *final(ptr), 0, *final(state)),
{
    let byte = data[*ptr];
    if byte == INTEGER_PREFIX {
        *state = ResponseParserState::ParsingInteger { start: *ptr + 1 };
    } else if byte == SIMPLE_PREFIX {
        *state = ResponseParserState::ParsingSimpleString { start: *ptr + 1 };
    } else if byte == ERROR_PREFIX {
        *state = ResponseParserState::ParsingError { start: *ptr + 1 };
    } else if byte == BULK_PREFIX {
        *state = ResponseParserState::ParsingBulkStringSize { start: *ptr + 1 };
    } else if byte == ARRAY_PREFIX {
        *state = ResponseParserState::ParsingArraySize { start: *ptr + 1 };
    } else {
        *state = ResponseParserState::Errored;
        return Some(Err(ParseError::InvalidResponseTypePrefix(byte as char)));
    }
    *ptr += 1;
    None
}

/// Ends an integer frame whose line has been read.
fn finish_integer(
    data: &[u8],
    start: usize,
    end: usize,
    ptr: &mut usize,
    owed: &mut usize,
    state: &mut ResponseParserState,
    Ghost(base): Ghost<int>,
) -> (r: Pulled)
    requires
        line_read(data@, base, INTEGER_PREFIX, start, end),
        *old(owed) == 0,
    ensures
        *final(ptr) <= data.len(),
        *final(owed) <= 3,
        *final(owed) > 0 ==> *final(ptr) == data.len(),
        settled(data@, base, r, *final(ptr) + *final(owed), *final(state)),
        r matches Ok(Some(_)) ==> *final(ptr) + *final(owed) > end,
{
    match parse_integer(data, start, end) {
        Ok(n) => {
            *state = ResponseParserState::Waiting;
            *ptr = end;
            advance(data.len(), ptr, owed, 2);
            Ok(Some(RedisResult::Integer(n)))
        },
        Err(error) => {
            *ptr = end;
            *state = ResponseParserState::Errored;
            Err(error)
        },
    }
}

/// Ends a simple byte-string frame whose line has been read.
fn finish_simple_string(
    data: &[u8],
    start: usize,
    end: usize,
    ptr: &mut usize,
    owed: &mut usize,
    state: &mut ResponseParserState,
    Ghost(base): Ghost<int>,
) -> (r: Pulled)
    requires
        line_read(data@, base, SIMPLE_PREFIX, start, end),
        *old(owed) == 0,
    ensures
        *final(ptr) <= data.len(),
        *final(owed) <= 3,
        *final(owed) > 0 ==> *final(ptr) == data.len(),
        settled(data@, base, r, *final(ptr) + *final(owed), *final(state)),
        r matches Ok(Some(_)) ==> *final(ptr) + *final(owed) > end,
{
    let bytes = parse_simple_string(data, start, end);
    *state = ResponseParserState::Waiting;
    *ptr = end;
    advance(data.len(), ptr, owed, 2);
    Ok(Some(RedisResult::String(bytes)))
}

/// Ends an error frame whose line has been read.
fn finish_error(
    data: &[u8],
    start: usize,
    end: usize,
    ptr: &mut usize,
    owed: &mut usize,
    state: &mut ResponseParserState,
    Ghost(base): Ghost<int>,
) -> (r: Pulled)
    requires
        line_read(data@, base, ERROR_PREFIX, start, end),
        *old(owed) == 0,
    ensures
        *final(ptr) <= data.len(),
        *final(owed) <= 3,
        *final(owed) > 0 ==> *final(ptr) == data.len(),
        settled(data@, base, r, *final(ptr) + *final(owed), *final(state)),
        r matches Ok(Some(_)) ==> *final(ptr) + *final(owed) > end,
{
    *ptr = end;
    match str_from_utf8(slice_subrange(data, start, end)) {
        Ok(text) => {
            let error = RedisErrorValue::from_text(text.to_owned());
            *state = ResponseParserState::Waiting;
            advance(data.len(), ptr, owed, 2);
            Ok(Some(RedisResult::Error(error)))
        },
        Err(error) => {
            *state = ResponseParserState::Errored;
            Err(ParseError::CannotConvertToUtf8(error))
        },
    }
}

/// Ends the header of a bulk byte-string: enters its contents, or settles
/// the frame when the header alone decides it.
fn finish_bulk_string_size(
    data: &[u8],
    start: usize,
    end: usize,
    ptr: &mut usize,
    owed: &mut usize,
    state: &mut ResponseParserState,
    Ghost(base): Ghost<int>,
) -> (r: Option<Pulled>)
    requires
        line_read(data@, base, BULK_PREFIX, start, end),
        *old(owed) == 0,
    ensures
        stepped(data@, base, end as int, r, *final(ptr), *final(owed), *final(state)),
{
    *ptr = end;
    match parse_integer(data, start, end) {
        Ok(n) => {
            if n >= 1 {
                advance(data.len(), ptr, owed, 2);
                *state = ResponseParserState::ParsingBulkString { header_end: end, size: n as u64 };
                None
            } else if n == 0 {
                advance(data.len(), ptr, owed, 4);
                *state = ResponseParserState::Waiting;
                let empty: Vec<u8> = Vec::new();
                assert(empty@ =~= Seq::<u8>::empty());
                Some(Ok(Some(RedisResult::String(empty))))
            } else if n == -1 {
                advance(data.len(), ptr, owed, 2);
                *state = ResponseParserState::Waiting;
                Some(Ok(Some(RedisResult::Null)))
            } else {
                *state = ResponseParserState::Errored;
                Some(Err(ParseError::InvalidBulkStringLength(n)))
            }
        },
        Err(error) => {
            *state = ResponseParserState::Errored;
            Some(Err(error))
        },
    }
}

/// Ends the header of an array: enters its first item, or settles the frame
/// when the header alone decides it.
fn finish_array_size(
    data: &[u8],
    start: usize,
    end: usize,
    ptr: &mut usize,
    owed: &mut usize,
    state: &mut ResponseParserState,
    Ghost(base): Ghost<int>,
) -> (r: Option<Pulled>)
    requires
        line_read(data@, base, ARRAY_PREFIX, start, end),
        *old(owed) == 0,
    ensures
        stepped(data@, base, end as int, r, *final(ptr), *final(owed), *final(state)),
{
    *ptr = end;
    match parse_integer(data, start, end) {
        Ok(n) => {
            if n >= 1 {
                advance(data.len(), ptr, owed, 2);
                let elements: Vec<RedisResult> = Vec::new();
                assert(results_view(elements@) =~= Seq::<RedisResultView>::empty());
                *state = ResponseParserState::ParsingArray {
                    remaining: n as u64,
                    elements,
                    cur_state: Box::new(ResponseParserState::Waiting),
                };
                proof {
                    reveal_with_fuel(ResponseParserState::follows, 2);
                }
                None
            } else if n == 0 {
                advance(data.len(), ptr, owed, 2);
                *state = ResponseParserState::Waiting;
                let items: Vec<RedisResult> = Vec::new();
                proof {
                    lemma_array_view(items);
                    assert(results_view(items@) =~= Seq::<RedisResultView>::empty());
                }
                Some(Ok(Some(RedisResult::Array(items))))
            } else if n == -1 {
                advance(data.len(), ptr, owed, 2);
                *state = ResponseParserState::Waiting;
                Some(Ok(Some(RedisResult::Null)))
            } else {
                *state = ResponseParserState::Errored;
                Some(Err(ParseError::InvalidArrayLength(n)))
            }
        },
        Err(error) => {
            *state = ResponseParserState::Errored;
            Some(Err(error))
        },
    }
}

/// Reads on in a line: to its carriage return, where the frame or its
/// header ends, or to the end of the stream.
fn step_line(
    data: &[u8],
    ptr: &mut usize,
    owed: &mut usize,
    state: &mut ResponseParserState,
    Ghost(base): Ghost<int>,
) -> (r: Option<Pulled>)
    requires
        *old(ptr) < data.len(),
        *old(owed) == 0,
        old(state).follows(data@, base, *old(ptr) as int),
        !(*old(state) is Waiting),
        !(*old(state) is ParsingBulkString),
        !(*old(state) is ParsingArray),
    ensures
        stepped(data@, base, *old(ptr) as int, r, *final(ptr), *final(owed), *final(state)),
{
    let (prefix, start): (u8, usize) = match state {
        ResponseParserState::ParsingInteger { start } => (INTEGER_PREFIX, *start),
        ResponseParserState::ParsingSimpleString { start } => (SIMPLE_PREFIX, *start),
        ResponseParserState::ParsingError { start } => (ERROR_PREFIX, *start),
        ResponseParserState::ParsingBulkStringSize { start } => (BULK_PREFIX, *start),
        ResponseParserState::ParsingArraySize { start } => (ARRAY_PREFIX, *start),
        _ => (0, 0),
    };
    assert(in_line(data@, base, *ptr as int, prefix, start));
    let end = find_line_end(data, *ptr);
    proof {
        lemma_line_end(data@, *ptr as int);
        lemma_line_end_resume(data@, start as int, *ptr as int);
    }
    if end >= data.len() {
        *ptr = data.len();
        proof {
            lemma_pending(*state, data@, base, *ptr as int);
        }
        return Some(Ok(None));
    }
    if prefix == INTEGER_PREFIX {
        Some(finish_integer(data, start, end, ptr, owed, state, Ghost(base)))
    } else if prefix == SIMPLE_PREFIX {
        Some(finish_simple_string(data, start, end, ptr, owed, state, Ghost(base)))
    } else if prefix == ERROR_PREFIX {
        Some(finish_error(data, start, end, ptr, owed, state, Ghost(base)))
    } else if prefix == BULK_PREFIX {
        finish_bulk_string_size(data, start, end, ptr, owed, state, Ghost(base))
    } else {
        finish_array_size(data, start, end, ptr, owed, state, Ghost(base))
    }
}

/// Reads on in the contents of a bulk byte-string: hands them out when they
/// are all there, with the byte that follows them, or else waits.
fn step_bulk_string(
    data: &[u8],
    header_end: usize,
    size: u64,
    ptr: &mut usize,
    owed: &mut usize,
    state: &mut ResponseParserState,
    Ghost(base): Ghost<int>,
) -> (r: Pulled)
    requires
        *old(ptr) < data.len(),
        *old(owed) == 0,
        *old(state) == (ResponseParserState::ParsingBulkString { header_end, size }),
        old(state).follows(data@, base, *old(ptr) as int),
    ensures
        *final(ptr) <= data.len(),
        *final(owed) <= 3,
        *final(owed) > 0 ==> *final(ptr) == data.len(),
        settled(data@, base, r, *final(ptr) + *final(owed), *final(state)),
        r matches Ok(Some(_)) ==> *final(ptr) + *final(owed) > *old(ptr),
{
    let len = data.len();
    let available = len - header_end;
    proof {
        lemma_line_end(data@, base + 1);
    }
    if available as u128 > size as u128 + 2 {
        let start: usize = header_end + 2;
        let stop: usize = start + size as usize;
        let bytes = parse_simple_string(data, start, stop);
        *state = ResponseParserState::Waiting;
        *ptr = stop;
        advance(len, ptr, owed, 2);
        Ok(Some(RedisResult::String(bytes)))
    } else {
        *ptr = len;
        Ok(None)
    }
}

/// Runs the state machine over `data` from the position `ptr` on, until a
/// frame is whole, the bytes run out or a fault shows.
///
/// `state` is where an earlier call left off within the frame that begins at
/// `base`. The result is what the grammar says of that frame: its value, and
/// the position moved past it; nothing yet, and the state to resume from; or
/// the fault, and the state `Errored`.
fn parse_response(
    data: &[u8],
    ptr: &mut usize,
    owed: &mut usize,
    state: &mut ResponseParserState,
    Ghost(base): Ghost<int>,
) -> (r: Pulled)
    requires
        *old(ptr) <= data.len(),
        *old(owed) == 0,
        old(state).follows(data@, base, *old(ptr) as int),
    ensures
        *final(ptr) <= data.len(),
        *final(owed) <= 3,
        *final(owed) > 0 ==> *final(ptr) == data.len(),
        settled(data@, base, r, *final(ptr) + *final(owed), *final(state)),
        r matches Ok(Some(_)) ==> *final(ptr) + *final(owed) > *old(ptr),
    decreases data.len() - *old(ptr), *old(state),
{
    let len = data.len();
    while *owed == 0 && *ptr < len
        invariant
            len == data.len(),
            *ptr <= len,
            *owed <= 3,
            *owed > 0 ==> *ptr == len,
            *ptr >= *old(ptr),
            *ptr == *old(ptr) ==> *state == *old(state),
            state.follows(data@, base, *ptr + *owed),
        decreases len - *ptr,
    {
        let ghost s = data@;
        match state {
            ResponseParserState::ParsingArray { remaining, elements, cur_state } => {
                let ghost end = line_end(s, base + 1);
                let ghost done = elements@.len();
                let ghost total = done + *remaining as nat;
                let ghost before = frames(s, end + 2, done)->Complete_len;
                let ghost item_base = end + 2 + before;
                proof {
                    lemma_line_end(s, base + 1);
                }
                let inner = parse_response(data, ptr, owed, cur_state, Ghost(item_base));
                match inner {
                    Ok(Some(element)) => {
                        let ghost value = element@;
                        let ghost old_items = elements@;
                        elements.push(element);
                        *remaining = *remaining - 1;
                        proof {
                            assert(results_view(elements@) =~= results_view(old_items).push(
                                value,
                            ));
                        }
                        if *remaining == 0 {
                            let mut items: Vec<RedisResult> = Vec::new();
                            core::mem::swap(elements, &mut items);
                            proof {
                                lemma_array_view(items);
                            }
                            *state = ResponseParserState::Waiting;
                            return Ok(Some(RedisResult::Array(items)));
                        }
                        proof {
                            reveal_with_fuel(ResponseParserState::follows, 2);
                        }
                    },
                    Ok(None) => {
                        proof {
                            lemma_frames_stuck(s, end + 2, done, total);
                        }
                        return Ok(None);
                    },
                    Err(error) => {
                        proof {
                            lemma_frames_stuck(s, end + 2, done, total);
                        }
                        *state = ResponseParserState::Errored;
                        return Err(error);
                    },
                }
            },
            ResponseParserState::ParsingBulkString { header_end, size } => {
                let header_end: usize = *header_end;
                let size: u64 = *size;
                return step_bulk_string(data, header_end, size, ptr, owed, state, Ghost(base));
            },
            ResponseParserState::Waiting => {
                match step_waiting(data, ptr, state, Ghost(base)) {
                    Some(outcome) => {
                        return outcome;
                    },
                    None => {},
                }
            },
            _ => {
                match step_line(data, ptr, owed, state, Ghost(base)) {
                    Some(outcome) => {
                        return outcome;
                    },
                    None => {},
                }
            },
        }
    }
    proof {
        lemma_pending(*state, data@, base, *ptr + *owed);
    }
    Ok(None)
}

/// How many of the bytes before `current` the state still refers to: none
/// between frames, and otherwise those from the offset that the innermost
/// state in progress recorded.
spec fn needed(state: ResponseParserState, current: int) -> int
    decreases state,
{
    match state {
        ResponseParserState::Waiting => 0,
        ResponseParserState::Errored => 0,
        ResponseParserState::ParsingInteger { start } => current - start,
        ResponseParserState::ParsingSimpleString { start } => current - start,
        ResponseParserState::ParsingError { start } => current - start,
        ResponseParserState::ParsingBulkStringSize { start } => current - start,
        ResponseParserState::ParsingBulkString { header_end, .. } => current - header_end,
        ResponseParserState::ParsingArraySize { start } => current - start,
        ResponseParserState::ParsingArray { cur_state, .. } => needed(*cur_state, current),
    }
}

/// True when no offset that the state recorded lies beyond `current`.
spec fn within(state: ResponseParserState, current: int) -> bool
    decreases state,
{
    match state {
        ResponseParserState::Waiting => true,
        ResponseParserState::Errored => true,
        ResponseParserState::ParsingInteger { start } => start <= current,
        ResponseParserState::ParsingSimpleString { start } => start <= current,
        ResponseParserState::ParsingError { start } => start <= current,
        ResponseParserState::ParsingBulkStringSize { start } => start <= current,
        ResponseParserState::ParsingBulkString { header_end, .. } => header_end <= current,
        ResponseParserState::ParsingArraySize { start } => start <= current,
        ResponseParserState::ParsingArray { cur_state, .. } => within(*cur_state, current),
    }
}

/// The number of bytes before `current` that must stay in the buffer for
/// `state` to go on.
fn max_needed_buffer(state: &ResponseParserState, current: usize) -> (r: usize)
    requires
        within(*state, current as int),
    ensures
        r == needed(*state, current as int),
        r <= current,
    decreases *state,
{
    match state {
        ResponseParserState::Waiting => 0,
        ResponseParserState::Errored => 0,
        ResponseParserState::ParsingInteger { start } => current - *start,
        ResponseParserState::ParsingSimpleString { start } => current - *start,
        ResponseParserState::ParsingError { start } => current - *start,
        ResponseParserState::ParsingBulkStringSize { start } => current - *start,
        ResponseParserState::ParsingBulkString { header_end, .. } => current - *header_end,
        ResponseParserState::ParsingArraySize { start } => current - *start,
        ResponseParserState::ParsingArray { cur_state, .. } => max_needed_buffer(
            cur_state,
            current,
        ),
    }
}

/// What a parser amounts to, whatever the sizes of the chunks that were fed
/// to it.
pub struct ParserView {
    /// The bytes that were fed and belong to no reply handed out so far.
    pub pending: Seq<u8>,
    /// The number of bytes still to come that belong to the terminator of
    /// the last reply handed out. They are dropped when they arrive.
    pub owed: nat,
    /// True once a fault was met.
    pub errored: bool,
}

/// What a call of `get_response` hands back.
pub enum Pull {
    /// One whole reply.
    Value(RedisResultView),
    /// Nothing yet: the bytes fed so far end within a frame.
    NeedMore,
    /// The bytes break the grammar, or did so earlier.
    Failed(ParseFault),
}

impl ParserView {
    /// A parser that was fed nothing.
    pub open spec fn fresh() -> ParserView {
        ParserView { pending: Seq::empty(), owed: 0, errored: false }
    }

    /// The parser after `bytes` were fed to it.
    pub open spec fn fed(self, bytes: Seq<u8>) -> ParserView {
        let dropped = if self.owed <= bytes.len() {
            self.owed
        } else {
            bytes.len()
        };
        ParserView {
            pending: self.pending + bytes.subrange(dropped as int, bytes.len() as int),
            owed: (self.owed - dropped) as nat,
            errored: self.errored,
        }
    }

    /// What the next call of `get_response` hands back.
    pub open spec fn next(self) -> Pull {
        if self.errored {
            Pull::Failed(ParseFault::ParserIsInAnErrorState)
        } else {
            match frame(self.pending, 0) {
                Scan::Complete { value, .. } => Pull::Value(value),
                Scan::Incomplete => Pull::NeedMore,
                Scan::Invalid { fault } => Pull::Failed(fault),
            }
        }
    }

    /// The parser after the next call of `get_response`: past the reply when
    /// there is one, in the error state when there is a fault, and as it was
    /// otherwise.
    pub open spec fn after_pull(self) -> ParserView {
        if self.errored {
            self
        } else {
            match frame(self.pending, 0) {
                Scan::Complete { len, .. } => {
                    let taken = if len <= self.pending.len() {
                        len
                    } else {
                        self.pending.len()
                    };
                    ParserView {
                        pending: self.pending.subrange(taken as int, self.pending.len() as int),
                        owed: (len - taken) as nat,
                        errored: false,
                    }
                },
                Scan::Incomplete => self,
                Scan::Invalid { .. } => ParserView { errored: true, ..self },
            }
        }
    }
}

/// The incremental parser of responses. Bytes go in through `feed`, in
/// chunks of any size; replies come out of `get_response`, one at a time.
#[derive(Debug)]
pub struct ResponseParser {
    /// The bytes that were fed and not discarded yet.
    buffer: Vec<u8>,
    /// The cursor: the offset in the buffer of the next byte to read.
    ptr: usize,
    /// How far the cursor stands beyond the bytes that have come in.
    owed: usize,
    /// Where the parser stands within the frame it is decoding.
    state: ResponseParserState,
    /// The offset in the buffer at which the frame being decoded begins.
    frame_start: usize,
}

impl View for ResponseParser {
    type V = ParserView;

    closed spec fn view(&self) -> ParserView {
        let stale = if self.frame_start <= self.buffer@.len() {
            self.frame_start as int
        } else {
            self.buffer@.len() as int
        };
        ParserView {
            pending: self.buffer@.subrange(stale, self.buffer@.len() as int),
            owed: (self.frame_start - stale) as nat,
            errored: self.state is Errored,
        }
    }
}

impl ResponseParser {
    /// The invariant of the parser: its state is what reading the buffer
    /// from the beginning of the current frame up to the cursor leaves
    /// behind.
    pub closed spec fn wf(&self) -> bool {
        &&& self.ptr <= self.buffer@.len()
        &&& self.frame_start <= 3
        &&& self.state is Errored || self.state.follows(
            self.buffer@,
            self.frame_start as int,
            self.ptr + self.owed,
        )
    }

    /// The number of bytes that the parser holds.
    pub closed spec fn buffered(&self) -> nat {
        self.buffer@.len()
    }

    /// The buffer holds the pending bytes, and before them at most what is
    /// left of the last reply's terminator.
    pub proof fn lemma_buffered(&self)
        requires
            self.wf(),
        ensures
            self@.pending.len() <= self.buffered() <= self@.pending.len() + 3,
            self@.owed > 0 ==> self@.pending.len() == 0,
            self@.owed <= 3,
    {
    }

    /// A parser that was fed nothing.
    pub fn new() -> (r: Self)
        ensures
            r.wf(),
            r@ == ParserView::fresh(),
            r.buffered() == 0,
    {
        let r = Self {
            buffer: Vec::new(),
            ptr: 0,
            owed: 0,
            state: ResponseParserState::Waiting,
            frame_start: 0,
        };
        assert(r@.pending =~= Seq::<u8>::empty());
        r
    }

    /// Appends `response` to the buffer. It never fails and decodes nothing.
    pub fn feed(&mut self, response: &[u8])
        requires
            old(self).wf(),
        ensures
            final(self).wf(),
            final(self)@ == old(self)@.fed(response@),
            final(self).buffered() == old(self).buffered() + response@.len(),
    {
        proof {
            if !(self.state is Errored) {
                lemma_follows_extend(
                    self.state,
                    self.buffer@,
                    response@,
                    self.frame_start as int,
                    self.ptr + self.owed,
                );
            }
        }
        self.buffer.extend_from_slice(response);
        proof {
            assert(self.buffer@ == old(self).buffer@ + response@);
            assert(self@.pending =~= old(self)@.fed(response@).pending);
        }
    }

    /// The number of bytes that the parser holds.
    pub fn buffer_len(&self) -> (r: usize)
        ensures
            r == self.buffered(),
    {
        self.buffer.len()
    }

    /// The frame that the parser is decoding is the frame that its pending
    /// bytes begin with.
    proof fn lemma_view_frame(&self)
        requires
            self.wf(),
        ensures
            frame(self.buffer@, self.frame_start as int) == frame(self@.pending, 0),
    {
        let s = self.buffer@;
        if self.frame_start <= s.len() {
            lemma_frame_shift(s, self.frame_start as int, 0);
        }
    }

    /// Takes from the buffer what it holds of the bytes that are owed to the
    /// last terminator.
    fn settle_owed(&mut self)
        requires
            old(self).wf(),
        ensures
            final(self).wf(),
            final(self).buffer == old(self).buffer,
            final(self).state == old(self).state,
            final(self).frame_start == old(self).frame_start,
            final(self).ptr + final(self).owed == old(self).ptr + old(self).owed,
            final(self).owed > 0 ==> final(self).ptr == final(self).buffer@.len(),
    {
        if self.owed > 0 {
            let room = self.buffer.len() - self.ptr;
            if self.owed <= room {
                self.ptr = self.ptr + self.owed;
                self.owed = 0;
            } else {
                self.owed = self.owed - room;
                self.ptr = self.buffer.len();
            }
        }
    }

    /// Drops from the buffer the bytes that the state no longer refers to,
    /// and moves the cursor back by as much.
    fn reclaim(&mut self)
        requires
            old(self).ptr <= old(self).buffer@.len(),
            old(self).state is Waiting,
        ensures
            final(self).buffer@ == old(self).buffer@.subrange(
                old(self).ptr as int,
                old(self).buffer@.len() as int,
            ),
            final(self).ptr == 0,
            final(self).owed == old(self).owed,
            final(self).frame_start == old(self).owed,
            final(self).state is Waiting,
    {
        let needed_buffer_start = self.ptr - max_needed_buffer(&self.state, self.ptr);
        let rest = self.buffer.split_off(needed_buffer_start);
        self.buffer = rest;
        self.ptr = self.ptr - needed_buffer_start;
        self.frame_start = self.owed;
    }

    /// Tries to decode one reply from the bytes fed so far.
    ///
    /// It hands out the next reply when the bytes hold a whole frame, and
    /// then drops that frame from the buffer; `None` when they end within a
    /// frame; and the fault when they break the grammar, after which every
    /// call fails with `ParserIsInAnErrorState`.
    pub fn get_response(&mut self) -> (r: Result<Option<RedisResult>, ParseError>)
        requires
            old(self).wf(),
        ensures
            final(self).wf(),
            final(self)@ == old(self)@.after_pull(),
            match old(self)@.next() {
                Pull::Value(value) => r matches Ok(Some(result)) && result@ == value,
                Pull::NeedMore => r matches Ok(None),
                Pull::Failed(fault) => r matches Err(error) && error@ == fault,
            },
            r matches Ok(Some(_)) ==> final(self).buffered() == final(self)@.pending.len(),
            !(r matches Ok(Some(_))) ==> final(self).buffered() == old(self).buffered(),
    {
        if let ResponseParserState::Errored = self.state {
            return Err(ParseError::ParserIsInAnErrorState);
        }
        proof {
            self.lemma_view_frame();
        }
        self.settle_owed();
        if self.owed > 0 {
            proof {
                lemma_pending(
                    self.state,
                    self.buffer@,
                    self.frame_start as int,
                    self.ptr + self.owed,
                );
            }
            return Ok(None);
        }
        let ghost s = self.buffer@;
        let ghost base = self.frame_start as int;
        let response = parse_response(
            self.buffer.as_slice(),
            &mut self.ptr,
            &mut self.owed,
            &mut self.state,
            Ghost(base),
        );
        match response {
            Ok(Some(response)) => {
                proof {
                    lemma_frame_len(s, base);
                }
                self.reclaim();
                proof {
                    assert(self@.pending =~= old(self)@.after_pull().pending);
                }
                Ok(Some(response))
            },
            Ok(None) => Ok(None),
            Err(error) => Err(error),
        }
    }
}

} // verus!
