//! Chunking invariance and pairing: the replies that a parser hands out
//! depend on the bytes it was fed, and not on how they were cut into chunks;
//! and they come out in the order of the stream.
use crate::sans_io::grammar::{frame, lemma_frame_extend, lemma_frame_len, Scan};
use crate::sans_io::response_parser::{ParserView, Pull};
use crate::types::redis_values::RedisResultView;
use vstd::prelude::*;

verus! {

/// True of the view of every parser: bytes can be pending only when nothing
/// is owed to the last terminator.
pub open spec fn consistent(view: ParserView) -> bool {
    view.owed > 0 ==> view.pending.len() == 0
}

/// The replies that calling `get_response` again and again hands out, up to
/// the first call that hands out none.
pub open spec fn drained(view: ParserView) -> Seq<RedisResultView>
    decreases view.pending.len(),
{
    match view.next() {
        Pull::Value(value) => {
            proof {
                lemma_frame_len(view.pending, 0);
            }
            seq![value] + drained(view.after_pull())
        },
        _ => Seq::empty(),
    }
}

/// The parser after calling `get_response` again and again, up to and with
/// the first call that hands out no reply.
pub open spec fn after_drain(view: ParserView) -> ParserView
    decreases view.pending.len(),
{
    match view.next() {
        Pull::Value(_) => {
            proof {
                lemma_frame_len(view.pending, 0);
            }
            after_drain(view.after_pull())
        },
        _ => view.after_pull(),
    }
}

/// The chunks put end to end.
pub open spec fn joined(chunks: Seq<Seq<u8>>) -> Seq<u8>
    decreases chunks.len(),
{
    if chunks.len() == 0 {
        Seq::empty()
    } else {
        chunks[0] + joined(chunks.drop_first())
    }
}

/// The replies handed out when the chunks are fed one by one and the parser
/// is drained before the first chunk and after each.
pub open spec fn replies_in_chunks(view: ParserView, chunks: Seq<Seq<u8>>) -> Seq<RedisResultView>
    decreases chunks.len(),
{
    if chunks.len() == 0 {
        drained(view)
    } else {
        drained(view) + replies_in_chunks(after_drain(view).fed(chunks[0]), chunks.drop_first())
    }
}

/// The parser after the chunks were fed one by one and it was drained before
/// the first chunk and after each.
pub open spec fn parser_after_chunks(view: ParserView, chunks: Seq<Seq<u8>>) -> ParserView
    decreases chunks.len(),
{
    if chunks.len() == 0 {
        after_drain(view)
    } else {
        parser_after_chunks(after_drain(view).fed(chunks[0]), chunks.drop_first())
    }
}

/// Feeding and pulling keep a view consistent.
pub proof fn lemma_consistent(view: ParserView, bytes: Seq<u8>)
    requires
        consistent(view),
    ensures
        consistent(view.fed(bytes)),
        consistent(view.after_pull()),
{
}

/// Draining keeps a view consistent.
pub proof fn lemma_after_drain_consistent(view: ParserView)
    requires
        consistent(view),
    ensures
        consistent(after_drain(view)),
    decreases view.pending.len(),
{
    if view.next() is Value {
        lemma_frame_len(view.pending, 0);
        lemma_after_drain_consistent(view.after_pull());
    }
}

/// Feeding two runs of bytes one after the other is feeding them at once.
pub proof fn lemma_fed_twice(view: ParserView, a: Seq<u8>, b: Seq<u8>)
    requires
        consistent(view),
    ensures
        view.fed(a).fed(b) == view.fed(a + b),
{
    let left = view.fed(a).fed(b);
    let right = view.fed(a + b);
    assert(left.pending =~= right.pending);
}

/// A reply that is ready stays the same when more bytes are fed first, and
/// the parser ends up the same either way.
proof fn lemma_pull_then_feed(view: ParserView, bytes: Seq<u8>)
    requires
        consistent(view),
        view.next() is Value,
    ensures
        view.fed(bytes).next() == view.next(),
        view.fed(bytes).after_pull() == view.after_pull().fed(bytes),
{
    lemma_frame_len(view.pending, 0);
    lemma_frame_extend(view.pending, bytes, 0);
    assert(bytes.subrange(0, bytes.len() as int) =~= bytes);
    let left = view.fed(bytes).after_pull();
    let right = view.after_pull().fed(bytes);
    assert(left.pending =~= right.pending);
}

/// Draining a parser before more bytes are fed changes neither the replies
/// nor the parser that remains.
pub proof fn lemma_drain_then_feed(view: ParserView, bytes: Seq<u8>)
    requires
        consistent(view),
    ensures
        drained(view.fed(bytes)) == drained(view) + drained(after_drain(view).fed(bytes)),
        after_drain(view.fed(bytes)) == after_drain(after_drain(view).fed(bytes)),
    decreases view.pending.len(),
{
    match view.next() {
        Pull::Value(value) => {
            lemma_frame_len(view.pending, 0);
            lemma_pull_then_feed(view, bytes);
            lemma_drain_then_feed(view.after_pull(), bytes);
            let rest = drained(view.after_pull());
            let more = drained(after_drain(view).fed(bytes));
            assert(seq![value] + (rest + more) =~= (seq![value] + rest) + more);
        },
        Pull::NeedMore => {
            assert(drained(view) + drained(view.fed(bytes)) =~= drained(view.fed(bytes)));
        },
        Pull::Failed(fault) => {
            if !view.errored {
                lemma_frame_extend(view.pending, bytes, 0);
                assert(bytes.subrange(0, bytes.len() as int) =~= bytes);
            }
            let stopped = view.after_pull();
            assert(stopped.errored);
            assert(view.fed(bytes).after_pull() == stopped.fed(bytes));
            assert(drained(view) + drained(stopped.fed(bytes)) =~= drained(view.fed(bytes)));
        },
    }
}

/// Chunking invariance. Whatever way a byte stream is cut into chunks,
/// feeding the chunks one by one and draining the parser after each hands
/// out the replies, and leaves the parser, that feeding the stream whole
/// and draining once does.
pub proof fn lemma_chunking_invariance(view: ParserView, chunks: Seq<Seq<u8>>)
    requires
        consistent(view),
    ensures
        replies_in_chunks(view, chunks) == drained(view.fed(joined(chunks))),
        parser_after_chunks(view, chunks) == after_drain(view.fed(joined(chunks))),
    decreases chunks.len(),
{
    if chunks.len() == 0 {
        assert(view.fed(Seq::empty()).pending =~= view.pending);
        assert(view.fed(Seq::empty()) == view);
    } else {
        let first = chunks[0];
        let rest = chunks.drop_first();
        let next = after_drain(view).fed(first);
        lemma_after_drain_consistent(view);
        lemma_consistent(after_drain(view), first);
        lemma_chunking_invariance(next, rest);
        lemma_fed_twice(after_drain(view), first, joined(rest));
        lemma_drain_then_feed(view, joined(chunks));
    }
}

/// The parser after `count` calls of `get_response`.
pub open spec fn after_pulls(view: ParserView, count: nat) -> ParserView
    decreases count,
{
    if count == 0 {
        view
    } else {
        after_pulls(view, (count - 1) as nat).after_pull()
    }
}

/// Pairing. The calls of `get_response` hand out the replies of the stream
/// in the order of the stream: the call that follows `count` earlier calls
/// hands out the reply that `count` replies precede. So the reply to the
/// n-th command that was written goes to the n-th command that asks.
pub proof fn lemma_replies_in_order(view: ParserView, count: nat)
    requires
        count < drained(view).len(),
    ensures
        after_pulls(view, count).next() == Pull::Value(drained(view)[count as int]),
        drained(after_pulls(view, count)) == drained(view).subrange(
            count as int,
            drained(view).len() as int,
        ),
    decreases count,
{
    let all = drained(view);
    if count == 0 {
        assert(all.subrange(0, all.len() as int) =~= all);
        if !(view.next() is Value) {
            assert(all.len() == 0);
        }
    } else {
        lemma_replies_in_order(view, (count - 1) as nat);
        let before = after_pulls(view, (count - 1) as nat);
        let rest = drained(before);
        assert(rest == all.subrange(count - 1, all.len() as int));
        assert(before.next() is Value);
        lemma_frame_len(before.pending, 0);
        let after = before.after_pull();
        assert(rest == seq![all[count - 1]] + drained(after));
        assert(drained(after) =~= rest.subrange(1, rest.len() as int));
        assert(drained(after) =~= all.subrange(count as int, all.len() as int));
        assert(drained(after).len() > 0);
        if !(after.next() is Value) {
            assert(drained(after).len() == 0);
        }
        assert(drained(after)[0] == all[count as int]);
    }
}

} // verus!
