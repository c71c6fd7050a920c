//! Laws of the gathering of bytes and of the stream from upstream.

use crate::http::chunked::{
    all_put, body_of, upstream_error_text, AggCall, BytesAgg, ChunkedUpstreamPoll, Closing,
    UpstreamEvent,
};
use crate::outside::buffers::content;
use bytes::Bytes;
use vstd::prelude::*;

verus! {

/// What gathers bytes gives nothing but empty bytes at first.
pub proof fn gathering_begins_empty(cap: usize, agg: &mut BytesAgg, taken: Option<Bytes>, len: usize)
    requires
        call_ensures(BytesAgg::new, (cap,), *old(agg)),
        call_ensures(BytesAgg::len, (&*old(agg),), len),
        call_ensures(BytesAgg::take, (agg,), taken),
    ensures
        taken is Some,
        content(taken->0) == Seq::<u8>::empty(),
        len == 0,
{
}

/// After bytes are put, what is taken is what would have been taken before, and then these bytes; and
/// the length grows by theirs. Where nothing could be taken before, they are not added.
pub proof fn put_bytes_are_taken_last(
    agg: &mut BytesAgg,
    bytes: &[u8],
    added: bool,
    before: &mut BytesAgg,
    taken_before: Option<Bytes>,
    len_before: usize,
    after: &mut BytesAgg,
    taken_after: Option<Bytes>,
    len_after: usize,
)
    requires
        call_ensures(BytesAgg::put, (agg, bytes), added),
        *old(before) == *old(agg),
        *old(after) == *final(agg),
        call_ensures(BytesAgg::take, (before,), taken_before),
        call_ensures(BytesAgg::take, (after,), taken_after),
        call_ensures(BytesAgg::len, (&*old(agg),), len_before),
        call_ensures(BytesAgg::len, (&*final(agg),), len_after),
    ensures
        added == taken_before is Some,
        taken_after is Some == taken_before is Some,
        taken_before matches Some(b) ==> content(taken_after->0) == content(b) + bytes@,
        added ==> len_after == len_before + bytes@.len(),
        !added ==> len_after == 0 && *final(agg) == *old(agg),
{
}

/// Bytes can be taken once, and not after they were given up.
pub proof fn bytes_are_taken_once(
    agg: &mut BytesAgg,
    taken: Option<Bytes>,
    again: &mut BytesAgg,
    taken_again: Option<Bytes>,
    given_up: &mut BytesAgg,
    late: &mut BytesAgg,
    taken_late: Option<Bytes>,
    poisoned: bool,
    still_poisoned: bool,
    poisoned_before: bool,
    poisoned_after: bool,
)
    requires
        call_ensures(BytesAgg::is_poisoned, (&*old(agg),), poisoned_before),
        call_ensures(BytesAgg::take, (agg,), taken),
        call_ensures(BytesAgg::is_poisoned, (&*final(agg),), poisoned_after),
        *old(again) == *final(agg),
        call_ensures(BytesAgg::take, (again,), taken_again),
        call_ensures(BytesAgg::poison, (given_up,), ()),
        *old(late) == *final(given_up),
        call_ensures(BytesAgg::is_poisoned, (&*old(late),), poisoned),
        call_ensures(BytesAgg::take, (late,), taken_late),
        call_ensures(BytesAgg::is_poisoned, (&*final(late),), still_poisoned),
    ensures
        taken_again is None,
        poisoned,
        taken_late is None,
        still_poisoned,
        poisoned_after == poisoned_before,
{
}

/// A stream that is closed a second time has nothing left to save and nothing to tell, and has failed
/// only if it had failed before.
pub proof fn streams_are_closed_once(
    stream: &mut ChunkedUpstreamPoll,
    closing: Closing,
    again: &mut ChunkedUpstreamPoll,
    second: Closing,
)
    requires
        call_ensures(ChunkedUpstreamPoll::close, (stream,), closing),
        *old(again) == *final(stream),
        call_ensures(ChunkedUpstreamPoll::close, (again,), second),
    ensures
        second.save is None,
        second.transferred is None,
        second.failed == closing.failed,
        closing.failed ==> closing.save is None && closing.transferred is None,
{
}

/// The bytes of events are the bytes of their chunks, one after the other.
pub proof fn bodies_are_joined(a: Seq<UpstreamEvent>, b: Seq<UpstreamEvent>, bytes: Bytes)
    ensures
        body_of(a + b) == body_of(a) + body_of(b),
        body_of(seq![]) == Seq::<u8>::empty(),
        body_of(seq![UpstreamEvent::Chunk(bytes)]) == content(bytes),
        body_of(seq![UpstreamEvent::Error]) == Seq::<u8>::empty(),
        body_of(seq![UpstreamEvent::End]) == Seq::<u8>::empty(),
        body_of(seq![UpstreamEvent::Pending]) == Seq::<u8>::empty(),
    decreases b.len(),
{
    reveal_with_fuel(body_of, 2);
    if b.len() == 0 {
        assert(a + b =~= a);
    } else {
        bodies_are_joined(a, b.drop_last(), bytes);
        assert((a + b).drop_last() =~= a + b.drop_last());
    }
    let one = seq![UpstreamEvent::Chunk(bytes)];
    assert(one.drop_last() =~= seq![]);
    assert(body_of(one) =~= content(bytes));
    assert(seq![UpstreamEvent::Error].drop_last() =~= seq![]);
    assert(seq![UpstreamEvent::End].drop_last() =~= seq![]);
    assert(seq![UpstreamEvent::Pending].drop_last() =~= seq![]);
}

/// The bytes that were put by calls are those of each call, one after the other.
pub proof fn puts_are_joined(a: Seq<AggCall>, b: Seq<AggCall>, bytes: Seq<u8>, added: bool)
    ensures
        all_put(a + b) == all_put(a) + all_put(b),
        all_put(seq![]) == Seq::<u8>::empty(),
        all_put(seq![AggCall::Put(bytes, added)]) == bytes,
        all_put(seq![AggCall::Poison]) == Seq::<u8>::empty(),
    decreases b.len(),
{
    reveal_with_fuel(all_put, 2);
    if b.len() == 0 {
        assert(a + b =~= a);
    } else {
        puts_are_joined(a, b.drop_last(), bytes, added);
        assert((a + b).drop_last() =~= a + b.drop_last());
    }
    let one = seq![AggCall::Put(bytes, added)];
    assert(one.drop_last() =~= seq![]);
    assert(all_put(one) =~= bytes);
    assert(seq![AggCall::Poison].drop_last() =~= seq![]);
}

/// A stream that goes away before anything came is not saved, and counts as no bytes.
pub proof fn streams_begin_empty(
    size_hint: usize,
    stream: &mut ChunkedUpstreamPoll,
    closing: Closing,
)
    requires
        call_ensures(ChunkedUpstreamPoll::new, (size_hint,), *old(stream)),
        call_ensures(ChunkedUpstreamPoll::close, (stream,), closing),
    ensures
        closing.save is None,
        closing.transferred == Some(0u64),
        !closing.failed,
{
}

/// What an event changes in how a stream would be closed: a chunk adds its bytes to what is saved and
/// counted, an error fails the request for good, the end makes what came the image to save, and
/// nothing yet changes nothing. The client is yielded what upstream yielded.
pub proof fn events_decide_the_closing(
    stream: &mut ChunkedUpstreamPoll,
    event: UpstreamEvent,
    yielded: UpstreamEvent,
    before: &mut ChunkedUpstreamPoll,
    closing_before: Closing,
    after: &mut ChunkedUpstreamPoll,
    closing_after: Closing,
)
    requires
        call_ensures(ChunkedUpstreamPoll::poll_next, (stream, event), yielded),
        *old(before) == *old(stream),
        *old(after) == *final(stream),
        call_ensures(ChunkedUpstreamPoll::close, (before,), closing_before),
        call_ensures(ChunkedUpstreamPoll::close, (after,), closing_after),
        old(stream).sent().len() <= u64::MAX,
        event matches UpstreamEvent::Chunk(bytes) ==> old(stream).sent().len() + content(bytes).len()
            <= u64::MAX,
    ensures
        yielded == event,
        closing_before.failed ==> closing_after.failed && closing_after.save is None,
        match event {
            UpstreamEvent::Chunk(bytes) => {
                &&& closing_after.failed == closing_before.failed
                &&& closing_after.save is Some == closing_before.save is Some
                &&& closing_before.save matches Some(b) ==> content(closing_after.save->0)
                    == content(b) + content(bytes)
                &&& closing_after.transferred is Some == closing_before.transferred is Some
                &&& closing_before.transferred matches Some(n) ==> closing_after.transferred->0 == n
                    + content(bytes).len()
            },
            UpstreamEvent::Error => {
                &&& closing_after.failed
                &&& closing_after.save is None
                &&& closing_after.transferred is None
            },
            UpstreamEvent::End => {
                &&& closing_after.failed == closing_before.failed
                &&& closing_after.transferred == closing_before.transferred
                &&& closing_after.save is Some == closing_before.transferred is Some
                &&& closing_after.save matches Some(b) ==> content(b).len()
                    == closing_before.transferred->0
                &&& closing_after.save matches Some(b) ==> content(b) == old(stream).sent()
            },
            UpstreamEvent::Pending => {
                &&& closing_after.failed == closing_before.failed
                &&& closing_after.transferred == closing_before.transferred
                &&& closing_after.save is Some == closing_before.save is Some
                &&& *final(stream) == *old(stream)
            },
        },
        final(stream).sent() == (match event {
            UpstreamEvent::Chunk(bytes) => old(stream).sent() + content(bytes),
            _ => old(stream).sent(),
        }),
{
}

/// The number of bytes that a stream has gathered is what it tells at its end to have transferred, and
/// zero where it tells nothing.
pub proof fn streams_count_what_they_gather(
    stream: &mut ChunkedUpstreamPoll,
    len: usize,
    closing: Closing,
)
    requires
        call_ensures(ChunkedUpstreamPoll::gathered_len, (&*old(stream),), len),
        call_ensures(ChunkedUpstreamPoll::close, (stream,), closing),
    ensures
        closing.transferred matches Some(n) ==> n == len,
        closing.transferred is None ==> len == 0,
        closing.save matches Some(bytes) ==> content(bytes).len() == len,
{
}

/// An error of upstream tells its cause.
pub proof fn upstream_errors_tell_their_cause(base: &str, text: String)
    requires
        call_ensures(upstream_error_text, (base,), text),
    ensures
        text@ == "upstream error: "@ + base@,
{
}

} // verus!
