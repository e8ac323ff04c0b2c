//! The request encoder: every command goes over the wire as an array frame
//! whose elements are bulk byte-strings, the command's name first.
use crate::decimal::{nat_text, push_decimal};
use crate::sans_io::encoding::{crlf, encoded, encoded_all, lemma_round_trip, round_trips};
use crate::sans_io::grammar::{frame, Scan, ARRAY_PREFIX, BULK_PREFIX, CR, LF};
use crate::types::redis_values::RedisResultView;
use vstd::prelude::*;

verus! {

/// One element of a request frame: `$`, the number of bytes in decimal, a
/// line end, the bytes as they are, and a line end.
pub open spec fn bulk_string(element: Seq<u8>) -> Seq<u8> {
    seq![BULK_PREFIX] + nat_text(element.len()) + crlf() + element + crlf()
}

/// The elements of a request frame, one after the other.
pub open spec fn bulk_strings(elements: Seq<Seq<u8>>) -> Seq<u8>
    decreases elements.len(),
{
    if elements.len() == 0 {
        Seq::empty()
    } else {
        bulk_strings(elements.drop_last()) + bulk_string(elements.last())
    }
}

/// A request frame: `*`, the number of elements in decimal, a line end, and
/// the elements.
pub open spec fn bulk_array(elements: Seq<Seq<u8>>) -> Seq<u8> {
    seq![ARRAY_PREFIX] + nat_text(elements.len()) + crlf() + bulk_strings(elements)
}

/// The byte sequences that a run of slices holds.
pub open spec fn slices_view(items: Seq<&[u8]>) -> Seq<Seq<u8>> {
    Seq::new(items.len(), |i: int| items[i]@)
}

/// The elements of a frame with one more element are those of the frame
/// without it, and then that element.
pub proof fn lemma_bulk_strings_push(elements: Seq<Seq<u8>>, element: Seq<u8>)
    ensures
        bulk_strings(elements.push(element)) == bulk_strings(elements) + bulk_string(element),
{
    let longer = elements.push(element);
    assert(longer.drop_last() =~= elements);
}

/// The byte-strings that the elements of a request frame are to the one who
/// decodes it.
pub open spec fn as_strings(elements: Seq<Seq<u8>>) -> Seq<RedisResultView> {
    Seq::new(elements.len(), |i: int| RedisResultView::String(elements[i]))
}

/// The elements of a request frame are the frames of as many byte-strings.
pub proof fn lemma_bulk_strings_encoded(elements: Seq<Seq<u8>>)
    ensures
        bulk_strings(elements) == encoded_all(as_strings(elements)),
    decreases elements.len(),
{
    let strings = as_strings(elements);
    if elements.len() > 0 {
        lemma_bulk_strings_encoded(elements.drop_last());
        assert(strings.drop_last() =~= as_strings(elements.drop_last()));
        assert(strings.last() == RedisResultView::String(elements.last()));
        assert(encoded(strings.last()) == bulk_string(elements.last()));
    } else {
        assert(strings.len() == 0);
    }
}

/// A request frame is well-formed: it is the frame of an array of
/// byte-strings, and whoever decodes it by the grammar of responses gets
/// that array back, its elements in order and unchanged, and with it the
/// frame is used up.
pub proof fn lemma_request_frame_decodes(elements: Seq<Seq<u8>>)
    requires
        elements.len() <= i64::MAX,
        forall|i: int| 0 <= i < elements.len() ==> (#[trigger] elements[i]).len() <= i64::MAX,
    ensures
        bulk_array(elements) == encoded(RedisResultView::Array(as_strings(elements))),
        frame(bulk_array(elements), 0) == (Scan::Complete {
            value: RedisResultView::Array(as_strings(elements)),
            len: bulk_array(elements).len(),
        }),
{
    let strings = as_strings(elements);
    lemma_bulk_strings_encoded(elements);
    assert forall|i: int| 0 <= i < strings.len() implies round_trips(#[trigger] strings[i]) by {
        assert(strings[i] == RedisResultView::String(elements[i]));
    }
    lemma_round_trip(RedisResultView::Array(strings));
}

/// Appends `input` to the frame in `out` as one bulk byte-string.
pub fn insert_bytes_into_vec(out: &mut Vec<u8>, input: &[u8])
    ensures
        final(out)@ == old(out)@ + bulk_string(input@),
{
    out.push(BULK_PREFIX);
    push_decimal(out, input.len() as u128);
    out.push(CR);
    out.push(LF);
    out.extend_from_slice(input);
    out.push(CR);
    out.push(LF);
    assert(out@ =~= old(out)@ + bulk_string(input@));
}

/// Begins a request frame of `count` elements.
pub fn frame_header(count: usize) -> (bytes: Vec<u8>)
    ensures
        bytes@ == seq![ARRAY_PREFIX] + nat_text(count as nat) + crlf(),
{
    let mut bytes: Vec<u8> = Vec::new();
    bytes.push(ARRAY_PREFIX);
    push_decimal(&mut bytes, count as u128);
    bytes.push(CR);
    bytes.push(LF);
    assert(bytes@ =~= seq![ARRAY_PREFIX] + nat_text(count as nat) + crlf());
    bytes
}

/// Encodes `items` as one request frame.
pub fn resp_bytes(items: &[&[u8]]) -> (bytes: Vec<u8>)
    ensures
        bytes@ == bulk_array(slices_view(items@)),
{
    let ghost elements = slices_view(items@);
    let mut bytes = frame_header(items.len());
    let ghost header = bytes@;
    let mut i: usize = 0;
    proof {
        assert(elements.subrange(0, 0) =~= Seq::<Seq<u8>>::empty());
        assert(bytes@ =~= header + bulk_strings(elements.subrange(0, 0)));
    }
    while i < items.len()
        invariant
            i <= items.len(),
            elements == slices_view(items@),
            bytes@ == header + bulk_strings(elements.subrange(0, i as int)),
        decreases items.len() - i,
    {
        let ghost before = elements.subrange(0, i as int);
        insert_bytes_into_vec(&mut bytes, items[i]);
        proof {
            lemma_bulk_strings_push(before, items[i as int]@);
            assert(elements.subrange(0, i + 1) =~= before.push(items[i as int]@));
            assert(bytes@ =~= header + bulk_strings(elements.subrange(0, i + 1)));
        }
        i += 1;
    }
    proof {
        assert(elements.subrange(0, items.len() as int) =~= elements);
    }
    bytes
}

} // verus!
