//! How a reply is written as a frame, and what the grammar makes of such a
//! frame: decoding gives the reply back, and an array frame holds exactly
//! the items that follow its header.
use crate::decimal::{
    int_text, is_digit, lemma_decimal_value_of_text, lemma_int_text_bytes, nat_text, MINUS,
};
use crate::sans_io::grammar::{
    frame, frames, lemma_frame_extend, lemma_frame_len, lemma_frame_shift, lemma_frames_count,
    lemma_line_end, line_end, line_number, ParseFault, Scan, ScanItems, ARRAY_PREFIX,
    BULK_PREFIX, CR, ERROR_PREFIX, INTEGER_PREFIX, LF,
};
use crate::types::redis_values::RedisResultView;
use vstd::prelude::*;
use vstd::utf8::valid_utf8;

verus! {

/// The two bytes that end a line.
pub open spec fn crlf() -> Seq<u8> {
    seq![CR, LF]
}

/// The frame that carries `value`: integers as integer frames, byte-strings
/// as bulk frames, arrays as array frames of their items' frames, errors as
/// error frames, and null as the null bulk-string.
pub open spec fn encoded(value: RedisResultView) -> Seq<u8>
    decreases value,
{
    match value {
        RedisResultView::Integer(n) => seq![INTEGER_PREFIX] + int_text(n as int) + crlf(),
        RedisResultView::String(bytes) => seq![BULK_PREFIX] + nat_text(bytes.len()) + crlf()
            + bytes + crlf(),
        RedisResultView::Error(payload) => seq![ERROR_PREFIX] + payload + crlf(),
        RedisResultView::Array(items) => seq![ARRAY_PREFIX] + nat_text(items.len()) + crlf()
            + encoded_all(items),
        RedisResultView::Null => seq![BULK_PREFIX] + int_text(-1) + crlf(),
    }
}

/// The frames that carry `items`, one after the other.
pub open spec fn encoded_all(items: Seq<RedisResultView>) -> Seq<u8>
    decreases items,
{
    if items.len() == 0 {
        Seq::empty()
    } else {
        encoded_all(items.drop_last()) + encoded(items.last())
    }
}

/// True when `value` can go over the wire and come back: it holds no error,
/// and the length of each byte-string and array in it fits the signed
/// 64-bit number that a header announces.
pub open spec fn round_trips(value: RedisResultView) -> bool
    decreases value,
{
    match value {
        RedisResultView::Integer(_) => true,
        RedisResultView::String(bytes) => bytes.len() <= i64::MAX,
        RedisResultView::Error(_) => false,
        RedisResultView::Array(items) => items.len() <= i64::MAX && forall|i: int|
            0 <= i < items.len() ==> round_trips(#[trigger] items[i]),
        RedisResultView::Null => true,
    }
}

/// Bytes that are all ASCII are well-formed UTF-8.
pub proof fn lemma_ascii_is_utf8(text: Seq<u8>)
    requires
        forall|i: int| 0 <= i < text.len() ==> #[trigger] text[i] < 128,
    ensures
        valid_utf8(text),
    decreases text.len(),
{
    if text.len() > 0 {
        let first = text[0];
        assert(first < 128);
        assert((first & 0x7f) as u32 <= 0x7f) by (bit_vector);
        let rest = vstd::utf8::pop_first_scalar(text);
        assert(rest =~= text.subrange(1, text.len() as int));
        assert forall|i: int| 0 <= i < rest.len() implies #[trigger] rest[i] < 128 by {
            assert(rest[i] == text[i + 1]);
        }
        lemma_ascii_is_utf8(rest);
    }
}

/// The header line that announces `n` is read back as `n`, wherever it
/// stands: it is the decimal text of `n`, and the line ends right behind it.
pub proof fn lemma_header(prefix: u8, n: int, tail: Seq<u8>)
    requires
        i64::MIN <= n <= i64::MAX,
    ensures
        ({
            let s = seq![prefix] + int_text(n) + crlf() + tail;
            let end = 1 + int_text(n).len();
            &&& line_end(s, 1) == end
            &&& s.subrange(1, end as int) == int_text(n)
            &&& line_number(int_text(n)) == Ok::<i64, ParseFault>(n as i64)
        }),
{
    let text = int_text(n);
    let s = seq![prefix] + text + crlf() + tail;
    let end = 1 + text.len();
    lemma_int_text_bytes(n);
    lemma_decimal_value_of_text(n, true);
    assert(s.subrange(1, end as int) =~= text);
    assert forall|i: int| 0 <= i < text.len() implies #[trigger] text[i] < 128 by {
        assert(is_digit(text[i]) || text[i] == MINUS);
    }
    lemma_ascii_is_utf8(text);
    lemma_line_end(s, 1);
    assert(s[end as int] == CR);
    assert forall|i: int| 1 <= i < end implies s[i] != CR by {
        assert(s[i] == text[i - 1]);
        assert(is_digit(text[i - 1]) || text[i - 1] == MINUS);
    }
    if line_end(s, 1) < end {
        assert(false);
    }
    if line_end(s, 1) > end {
        assert(false);
    }
}

/// Round trip. Writing a reply that holds no error as a frame and decoding
/// that frame gives the reply back, and the frame is used up to its last
/// byte.
pub proof fn lemma_round_trip(value: RedisResultView)
    requires
        round_trips(value),
    ensures
        frame(encoded(value), 0) == (Scan::Complete { value, len: encoded(value).len() }),
    decreases value,
{
    let s = encoded(value);
    match value {
        RedisResultView::Integer(n) => {
            lemma_header(INTEGER_PREFIX, n as int, Seq::empty());
            assert(s =~= seq![INTEGER_PREFIX] + int_text(n as int) + crlf() + Seq::empty());
        },
        RedisResultView::String(bytes) => {
            let n = bytes.len() as int;
            lemma_header(BULK_PREFIX, n, bytes + crlf());
            assert(s =~= seq![BULK_PREFIX] + int_text(n) + crlf() + (bytes + crlf()));
            let start = 1 + int_text(n).len() + 2;
            assert(s.subrange(start as int, start + n) =~= bytes);
            if n == 0 {
                assert(bytes =~= Seq::<u8>::empty());
            }
        },
        RedisResultView::Error(_) => {},
        RedisResultView::Array(items) => {
            let n = items.len() as int;
            lemma_header(ARRAY_PREFIX, n, encoded_all(items));
            assert(s =~= seq![ARRAY_PREFIX] + int_text(n) + crlf() + encoded_all(items));
            let start = 1 + int_text(n).len() + 2;
            if n >= 1 {
                assert(items.subrange(0, n) =~= items);
                assert(s =~= s.subrange(0, start as int) + encoded_all(items) + Seq::empty());
                lemma_items_round_trip(items, items.len(), s, start as int, Seq::empty());
            } else {
                assert(items =~= Seq::<RedisResultView>::empty());
            }
        },
        RedisResultView::Null => {
            lemma_header(BULK_PREFIX, -1, Seq::empty());
            assert(s =~= seq![BULK_PREFIX] + int_text(-1) + crlf() + Seq::empty());
        },
    }
}

/// The first `count` of the frames that carry `items` decode to the first
/// `count` items, wherever those frames stand in a stream.
proof fn lemma_items_round_trip(
    items: Seq<RedisResultView>,
    count: nat,
    s: Seq<u8>,
    at: int,
    tail: Seq<u8>,
)
    requires
        count <= items.len(),
        forall|i: int| 0 <= i < items.len() ==> round_trips(#[trigger] items[i]),
        0 <= at <= s.len(),
        s == s.subrange(0, at) + encoded_all(items.subrange(0, count as int)) + tail,
    ensures
        frames(s, at, count) == (ScanItems::Complete {
            values: items.subrange(0, count as int),
            len: encoded_all(items.subrange(0, count as int)).len(),
        }),
    decreases items, count,
{
    let head = s.subrange(0, at);
    let taken = items.subrange(0, count as int);
    if count == 0 {
        assert(taken =~= Seq::empty());
    } else {
        let before = items.subrange(0, count - 1);
        let last = items[count - 1];
        assert(taken.drop_last() =~= before);
        assert(taken.last() == last);
        let body = encoded_all(before);
        let item = encoded(last);
        assert(encoded_all(taken) == body + item);
        assert(s =~= head + body + (item + tail));
        lemma_items_round_trip(items, (count - 1) as nat, s, at, item + tail);
        lemma_round_trip(last);
        lemma_frame_extend(item, tail, 0);
        let k = at + body.len();
        assert(s.subrange(k, s.len() as int) =~= item + tail);
        lemma_frame_shift(s, k, 0);
        assert(taken =~= before.push(last));
    }
}

/// Array framing. An array frame whose header announces `n >= 0` decodes to
/// one array of exactly `n` items, and they are the values of the `n` frames
/// that follow the header, in the order of the stream. The frame is whole
/// exactly when those `n` frames are.
pub proof fn lemma_array_framing(s: Seq<u8>, at: int, n: i64)
    requires
        0 <= at < s.len(),
        s[at] == ARRAY_PREFIX,
        line_end(s, at + 1) < s.len(),
        line_number(s.subrange(at + 1, line_end(s, at + 1))) == Ok::<i64, ParseFault>(n),
        n >= 0,
    ensures
        frame(s, at) is Complete <==> frames(s, line_end(s, at + 1) + 2, n as nat) is Complete,
        frame(s, at) matches Scan::Complete { value, .. } ==> {
            &&& value matches RedisResultView::Array(items)
            &&& items.len() == n
            &&& forall|i: int|
                0 <= i < n ==> {
                    &&& (#[trigger] frames(s, line_end(s, at + 1) + 2, i as nat))
                        matches ScanItems::Complete { values, len }
                    &&& values == items.subrange(0, i)
                    &&& frame(s, line_end(s, at + 1) + 2 + len) matches Scan::Complete {
                        value: item,
                        ..
                    }
                    &&& item == items[i]
                }
        },
{
    let start = line_end(s, at + 1) + 2;
    lemma_line_end(s, at + 1);
    if n >= 1 {
        if frames(s, start, n as nat) is Complete {
            let items = frames(s, start, n as nat)->Complete_values;
            lemma_frames_count(s, start, n as nat);
            assert forall|i: int| 0 <= i < n implies {
                &&& (#[trigger] frames(s, start, i as nat)) matches ScanItems::Complete {
                    values,
                    len,
                }
                &&& values == items.subrange(0, i)
                &&& frame(s, start + len) matches Scan::Complete { value: item, .. }
                &&& item == items[i]
            } by {
                lemma_frames_prefix(s, start, i as nat, n as nat);
            }
        }
    } else {
        assert(frames(s, start, 0) is Complete);
    }
}

/// A run of whole frames begins with each shorter run of whole frames, and
/// goes on with the frame that follows it.
pub proof fn lemma_frames_prefix(s: Seq<u8>, at: int, fewer: nat, count: nat)
    requires
        at >= 0,
        fewer < count,
        frames(s, at, count) is Complete,
    ensures
        frames(s, at, fewer) matches ScanItems::Complete { values, len } && {
            &&& values == frames(s, at, count)->Complete_values.subrange(0, fewer as int)
            &&& frame(s, at + len) matches Scan::Complete { value, .. }
            &&& value == frames(s, at, count)->Complete_values[fewer as int]
        },
    decreases count,
{
    let all = frames(s, at, count)->Complete_values;
    lemma_frames_count(s, at, count);
    lemma_frames_count(s, at, (count - 1) as nat);
    let shorter = frames(s, at, (count - 1) as nat)->Complete_values;
    assert(all.subrange(0, count - 1) =~= shorter);
    if fewer + 1 < count {
        lemma_frames_prefix(s, at, fewer, (count - 1) as nat);
        assert(all.subrange(0, fewer as int) =~= shorter.subrange(0, fewer as int));
    }
}

} // verus!
