//! The grammar of response frames, as a function from bytes to what they
//! decode to. The parser is proved to compute this function, however the
//! bytes reach it.
use crate::decimal::decimal_in_range;
use crate::types::redis_values::RedisResultView;
use vstd::prelude::*;
use vstd::utf8::valid_utf8;

verus! {

/// Carriage return, the byte that ends a line.
pub const CR: u8 = 13;

/// Line feed, the byte that follows a carriage return.
pub const LF: u8 = 10;

/// `':'`, the prefix of an integer frame.
pub const INTEGER_PREFIX: u8 = 58;

/// `'+'`, the prefix of a simple byte-string frame.
pub const SIMPLE_PREFIX: u8 = 43;

/// `'-'`, the prefix of an error frame.
pub const ERROR_PREFIX: u8 = 45;

/// `'$'`, the prefix of a bulk byte-string frame.
pub const BULK_PREFIX: u8 = 36;

/// `'*'`, the prefix of an array frame.
pub const ARRAY_PREFIX: u8 = 42;

/// How a byte stream can break the grammar.
pub enum ParseFault {
    /// The digits of an integer or of a length do not denote a signed
    /// 64-bit number.
    CannotParseInteger,
    /// A line that must be text is not well-formed UTF-8.
    CannotConvertToUtf8,
    /// A bulk byte-string announces a negative length other than -1.
    InvalidBulkStringLength(i64),
    /// An array announces a negative length other than -1.
    InvalidArrayLength(i64),
    /// A frame begins with a byte that selects no kind of frame.
    InvalidResponseTypePrefix(char),
    /// The parser met a fault earlier and decodes nothing more.
    ParserIsInAnErrorState,
}

/// What the bytes from some offset on amount to.
pub enum Scan {
    /// One whole frame: its value, and the number of bytes it takes. The
    /// frame may end up to three bytes past the end of the stream, since a
    /// terminator is taken on the strength of its carriage return alone.
    Complete { value: RedisResultView, len: nat },
    /// The beginning of a frame: more bytes are needed to tell.
    Incomplete,
    /// Bytes that begin no frame.
    Invalid { fault: ParseFault },
}

/// What the bytes from some offset on amount to, read as a run of frames.
pub enum ScanItems {
    /// As many whole frames as were asked for: their values in the order of
    /// the stream, and the number of bytes they take together.
    Complete { values: Seq<RedisResultView>, len: nat },
    /// Fewer whole frames than were asked for, and no fault so far.
    Incomplete,
    /// A fault in the first frame that is not whole.
    Invalid { fault: ParseFault },
}

/// True when `byte` selects a kind of frame.
pub open spec fn is_prefix(byte: u8) -> bool {
    byte == INTEGER_PREFIX || byte == SIMPLE_PREFIX || byte == ERROR_PREFIX || byte
        == BULK_PREFIX || byte == ARRAY_PREFIX
}

/// The index of the first carriage return of `s` at or after `from`; the
/// length of `s` when there is none.
pub open spec fn line_end(s: Seq<u8>, from: int) -> int
    decreases s.len() - from,
{
    if from >= s.len() {
        s.len() as int
    } else if s[from] == CR {
        from
    } else {
        line_end(s, from + 1)
    }
}

/// `line_end` stays within the stream and names a carriage return, with no
/// carriage return before it.
pub proof fn lemma_line_end(s: Seq<u8>, from: int)
    requires
        0 <= from,
    ensures
        from <= s.len() ==> from <= line_end(s, from) <= s.len(),
        from > s.len() ==> line_end(s, from) == s.len(),
        line_end(s, from) < s.len() ==> s[line_end(s, from)] == CR,
        forall|i: int| from <= i < line_end(s, from) ==> s[i] != CR,
    decreases s.len() - from,
{
    if from < s.len() && s[from] != CR {
        lemma_line_end(s, from + 1);
    }
}

/// The number of bytes of `s` from `at` on.
pub open spec fn unread(s: Seq<u8>, at: int) -> nat {
    if 0 <= at < s.len() {
        (s.len() - at) as nat
    } else {
        0
    }
}

/// The signed 64-bit number that a line of digits denotes.
pub open spec fn line_number(line: Seq<u8>) -> Result<i64, ParseFault> {
    if !valid_utf8(line) {
        Err(ParseFault::CannotConvertToUtf8)
    } else {
        match decimal_in_range(line, true, i64::MIN as int, i64::MAX as int) {
            Some(n) => Ok(n as i64),
            None => Err(ParseFault::CannotParseInteger),
        }
    }
}

/// A bulk byte-string whose header starts at `at`, ends with the carriage
/// return at `end` and announces `n` bytes.
pub open spec fn bulk_frame(s: Seq<u8>, at: int, end: int, n: i64) -> Scan {
    let start = end + 2;
    if n >= 1 {
        if s.len() > start + n {
            Scan::Complete {
                value: RedisResultView::String(s.subrange(start, start + n)),
                len: (start + n + 2 - at) as nat,
            }
        } else {
            Scan::Incomplete
        }
    } else if n == 0 {
        Scan::Complete {
            value: RedisResultView::String(Seq::empty()),
            len: (end + 4 - at) as nat,
        }
    } else if n == -1 {
        Scan::Complete { value: RedisResultView::Null, len: (end + 2 - at) as nat }
    } else {
        Scan::Invalid { fault: ParseFault::InvalidBulkStringLength(n) }
    }
}

/// The frame that begins at offset `at` of the stream `s`.
///
/// The first byte selects the kind of frame. Integers, simple byte-strings
/// and errors run to the next carriage return; bulk byte-strings and arrays
/// announce their length on such a line. Every terminator counts two bytes,
/// of which only the carriage return is looked at.
pub open spec fn frame(s: Seq<u8>, at: int) -> Scan
    decreases unread(s, at), 0nat,
{
    if at < 0 || at >= s.len() {
        Scan::Incomplete
    } else if !is_prefix(s[at]) {
        Scan::Invalid { fault: ParseFault::InvalidResponseTypePrefix(s[at] as char) }
    } else {
        proof {
            lemma_line_end(s, at + 1);
        }
        let end = line_end(s, at + 1);
        let line = s.subrange(at + 1, end);
        let len = (end + 2 - at) as nat;
        if end >= s.len() {
            Scan::Incomplete
        } else if s[at] == SIMPLE_PREFIX {
            Scan::Complete { value: RedisResultView::String(line), len }
        } else if s[at] == ERROR_PREFIX {
            if valid_utf8(line) {
                Scan::Complete { value: RedisResultView::Error(line), len }
            } else {
                Scan::Invalid { fault: ParseFault::CannotConvertToUtf8 }
            }
        } else {
            match line_number(line) {
                Err(fault) => Scan::Invalid { fault },
                Ok(n) => if s[at] == INTEGER_PREFIX {
                    Scan::Complete { value: RedisResultView::Integer(n), len }
                } else if s[at] == BULK_PREFIX {
                    bulk_frame(s, at, end, n)
                } else if n >= 1 {
                    match frames(s, end + 2, n as nat) {
                        ScanItems::Complete { values, len: items_len } => Scan::Complete {
                            value: RedisResultView::Array(values),
                            len: len + items_len,
                        },
                        ScanItems::Incomplete => Scan::Incomplete,
                        ScanItems::Invalid { fault } => Scan::Invalid { fault },
                    }
                } else if n == 0 {
                    Scan::Complete { value: RedisResultView::Array(Seq::empty()), len }
                } else if n == -1 {
                    Scan::Complete { value: RedisResultView::Null, len }
                } else {
                    Scan::Invalid { fault: ParseFault::InvalidArrayLength(n) }
                },
            }
        }
    }
}

/// The first `count` frames from offset `at` of the stream `s` on, each
/// beginning where the one before it ends.
pub open spec fn frames(s: Seq<u8>, at: int, count: nat) -> ScanItems
    decreases unread(s, at), count + 1,
{
    if count == 0 {
        ScanItems::Complete { values: Seq::empty(), len: 0 }
    } else if at < 0 {
        ScanItems::Incomplete
    } else {
        match frames(s, at, (count - 1) as nat) {
            ScanItems::Complete { values, len } => match frame(s, at + len) {
                Scan::Complete { value, len: last } => ScanItems::Complete {
                    values: values.push(value),
                    len: len + last,
                },
                Scan::Incomplete => ScanItems::Incomplete,
                Scan::Invalid { fault } => ScanItems::Invalid { fault },
            },
            ScanItems::Incomplete => ScanItems::Incomplete,
            ScanItems::Invalid { fault } => ScanItems::Invalid { fault },
        }
    }
}

/// A line that is known to hold no carriage return up to `pos` ends where
/// the search from `pos` on says.
pub proof fn lemma_line_end_resume(s: Seq<u8>, from: int, pos: int)
    requires
        0 <= from <= pos <= s.len(),
        forall|i: int| from <= i < pos ==> s[i] != CR,
    ensures
        line_end(s, from) == line_end(s, pos),
    decreases pos - from,
{
    if from < pos {
        lemma_line_end_resume(s, from + 1, pos);
    }
}

/// A line that ends within `s` ends at the same place in every stream that
/// `s` begins.
pub proof fn lemma_line_end_extend(s: Seq<u8>, t: Seq<u8>, from: int)
    requires
        0 <= from,
        line_end(s, from) < s.len(),
    ensures
        line_end(s + t, from) == line_end(s, from),
    decreases s.len() - from,
{
    if from < s.len() && s[from] != CR {
        lemma_line_end_extend(s, t, from + 1);
    }
}

/// A whole frame takes at least three bytes and begins within the stream.
pub proof fn lemma_frame_len(s: Seq<u8>, at: int)
    ensures
        frame(s, at) matches Scan::Complete { len, .. } ==> len >= 3 && 0 <= at < s.len(),
{
    if 0 <= at < s.len() {
        lemma_line_end(s, at + 1);
    }
}

/// A run of whole frames holds as many values as frames were asked for.
pub proof fn lemma_frames_count(s: Seq<u8>, at: int, count: nat)
    ensures
        frames(s, at, count) matches ScanItems::Complete { values, .. } ==> values.len() == count,
    decreases count,
{
    if count > 0 && at >= 0 {
        lemma_frames_count(s, at, (count - 1) as nat);
    }
}

/// More bytes do not change what was decided: a stream that holds a whole
/// frame at `at`, or a fault, still does when bytes are appended to it.
pub proof fn lemma_frame_extend(s: Seq<u8>, t: Seq<u8>, at: int)
    requires
        !(frame(s, at) is Incomplete),
    ensures
        frame(s + t, at) == frame(s, at),
    decreases unread(s, at), 0nat,
{
    let u = s + t;
    assert(0 <= at < s.len());
    assert(u[at] == s[at]);
    if is_prefix(s[at]) {
        lemma_line_end(s, at + 1);
        let end = line_end(s, at + 1);
        assert(end < s.len());
        lemma_line_end_extend(s, t, at + 1);
        assert(u.subrange(at + 1, end) =~= s.subrange(at + 1, end));
        if s[at] == SIMPLE_PREFIX || s[at] == ERROR_PREFIX {
        } else {
            match line_number(s.subrange(at + 1, end)) {
                Err(_) => {},
                Ok(n) => {
                    if s[at] == INTEGER_PREFIX {
                    } else if s[at] == BULK_PREFIX {
                        if n >= 1 {
                            let start = end + 2;
                            assert(u.subrange(start, start + n) =~= s.subrange(start, start + n));
                        }
                    } else if n >= 1 {
                        lemma_frames_extend(s, t, end + 2, n as nat);
                    }
                },
            }
        }
    }
}

/// More bytes do not change what was decided of a run of frames.
pub proof fn lemma_frames_extend(s: Seq<u8>, t: Seq<u8>, at: int, count: nat)
    requires
        !(frames(s, at, count) is Incomplete),
    ensures
        frames(s + t, at, count) == frames(s, at, count),
    decreases unread(s, at), count + 1,
{
    if count > 0 {
        assert(at >= 0);
        lemma_frames_extend(s, t, at, (count - 1) as nat);
        match frames(s, at, (count - 1) as nat) {
            ScanItems::Complete { values, len } => {
                lemma_frame_extend(s, t, at + len);
            },
            _ => {},
        }
    }
}

/// A run of frames that stops short stops at its first frame that is not
/// whole, however many frames are asked for beyond it.
pub proof fn lemma_frames_stuck(s: Seq<u8>, at: int, done: nat, count: nat)
    requires
        at >= 0,
        done < count,
        frames(s, at, done) is Complete,
        !(frame(s, at + frames(s, at, done)->Complete_len) is Complete),
    ensures
        match frame(s, at + frames(s, at, done)->Complete_len) {
            Scan::Invalid { fault } => frames(s, at, count) == (ScanItems::Invalid { fault }),
            _ => frames(s, at, count) is Incomplete,
        },
    decreases count,
{
    if done + 1 < count {
        lemma_frames_stuck(s, at, done, (count - 1) as nat);
    }
}

/// A line ends at the same byte wherever the count of offsets begins.
pub proof fn lemma_line_end_shift(s: Seq<u8>, k: int, from: int)
    requires
        0 <= k <= s.len(),
        0 <= from,
    ensures
        line_end(s, k + from) == k + line_end(s.subrange(k, s.len() as int), from),
    decreases s.len() - (k + from),
{
    let v = s.subrange(k, s.len() as int);
    if k + from < s.len() {
        assert(v[from] == s[k + from]);
        if s[k + from] != CR {
            lemma_line_end_shift(s, k, from + 1);
        }
    }
}

/// The frame at an offset depends on the bytes from the frame on, and not
/// on what stands before it.
pub proof fn lemma_frame_shift(s: Seq<u8>, k: int, at: int)
    requires
        0 <= k <= s.len(),
        0 <= at,
    ensures
        frame(s, k + at) == frame(s.subrange(k, s.len() as int), at),
    decreases unread(s, k + at), 0nat,
{
    let v = s.subrange(k, s.len() as int);
    if k + at < s.len() {
        assert(v[at] == s[k + at]);
        if is_prefix(s[k + at]) {
            lemma_line_end(s, k + at + 1);
            lemma_line_end(v, at + 1);
            lemma_line_end_shift(s, k, at + 1);
            let end = line_end(v, at + 1);
            assert(s.subrange(k + at + 1, k + end) =~= v.subrange(at + 1, end));
            if end < v.len() && s[k + at] != SIMPLE_PREFIX && s[k + at] != ERROR_PREFIX {
                match line_number(v.subrange(at + 1, end)) {
                    Err(_) => {},
                    Ok(n) => {
                        if s[k + at] == INTEGER_PREFIX {
                        } else if s[k + at] == BULK_PREFIX {
                            if n >= 1 {
                                let start = end + 2;
                                if v.len() > start + n {
                                    assert(s.subrange(k + start, k + start + n) =~= v.subrange(
                                        start,
                                        start + n,
                                    ));
                                }
                            }
                        } else if n >= 1 {
                            lemma_frames_shift(s, k, end + 2, n as nat);
                        }
                    },
                }
            }
        }
    }
}

/// A run of frames depends on the bytes from its first frame on, and not on
/// what stands before it.
pub proof fn lemma_frames_shift(s: Seq<u8>, k: int, at: int, count: nat)
    requires
        0 <= k <= s.len(),
        0 <= at,
    ensures
        frames(s, k + at, count) == frames(s.subrange(k, s.len() as int), at, count),
    decreases unread(s, k + at), count + 1,
{
    if count > 0 {
        lemma_frames_shift(s, k, at, (count - 1) as nat);
        match frames(s, k + at, (count - 1) as nat) {
            ScanItems::Complete { values, len } => {
                lemma_frame_shift(s, k, at + len);
            },
            _ => {},
        }
    }
}

} // verus!
