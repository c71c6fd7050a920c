//! The stream of an image from upstream to the client, which is gathered for the cache on its way.

use crate::outside::buffers::{append, as_slice, buffered, content, new_buffer};
use bytes::{Bytes, BytesMut};
use vstd::prelude::*;
use vstd::string::*;

verus! {

/// Gathers bytes.
pub enum BytesAgg {
    /// Gathering.
    Stable(BytesMut),
    /// The bytes were taken.
    Taken,
    /// The bytes may be invalid or incomplete, and are gone.
    Poisoned,
}

impl BytesAgg {
    /// The bytes gathered so far, if they can still be had.
    pub open spec fn gathered(self) -> Option<Seq<u8>> {
        match self {
            BytesAgg::Stable(buffer) => Some(buffered(buffer)),
            _ => None,
        }
    }

    /// Nothing gathered yet, with room for `cap` bytes.
    pub fn new(cap: usize) -> (agg: Self)
        requires
            cap <= isize::MAX,
        ensures
            agg.gathered() == Some(Seq::<u8>::empty()),
    {
        BytesAgg::Stable(new_buffer(cap))
    }

    /// Adds bytes. Says whether they were added.
    pub fn put(&mut self, bytes: &[u8]) -> (added: bool)
        requires
            old(self).gathered() matches Some(g) ==> g.len() + bytes@.len() <= isize::MAX / 2,
        ensures
            put_into(*old(self), bytes@, added, *final(self)),
    {
        match self {
            BytesAgg::Stable(buffer) => {
                append(buffer, bytes);
                true
            },
            _ => false,
        }
    }

    /// The number of bytes gathered, or zero if they cannot be had.
    pub fn len(&self) -> (len: usize)
        ensures
            len == gathered_len(*self),
    {
        match self {
            BytesAgg::Stable(buffer) => buffer.len(),
            _ => 0,
        }
    }

    /// Takes the bytes, if they can still be had; else nothing changes.
    pub fn take(&mut self) -> (bytes: Option<Bytes>)
        ensures
            taken_from(*old(self), bytes, *final(self)),
    {
        let mut last = BytesAgg::Taken;
        std::mem::swap(self, &mut last);
        match last {
            BytesAgg::Stable(buffer) => Some(buffer.freeze()),
            other => {
                *self = other;
                None
            },
        }
    }

    /// Gives the bytes up, because they may be invalid or incomplete.
    pub fn poison(&mut self)
        ensures
            *final(self) is Poisoned,
    {
        *self = BytesAgg::Poisoned;
    }

    /// Whether the bytes were given up.
    pub fn is_poisoned(&self) -> (poisoned: bool)
        ensures
            poisoned == (self is Poisoned),
    {
        matches!(self, BytesAgg::Poisoned)
    }
}

/// Bytes are added to what was gathered in the state `before`, if it can still be had.
pub open spec fn put_into(before: BytesAgg, bytes: Seq<u8>, added: bool, after: BytesAgg) -> bool {
    match before.gathered() {
        Some(g) => added && after.gathered() == Some(g + bytes),
        None => !added && after == before,
    }
}

/// What was gathered in the state `before` is taken, if it can still be had.
pub open spec fn taken_from(before: BytesAgg, bytes: Option<Bytes>, after: BytesAgg) -> bool {
    match before.gathered() {
        Some(g) => {
            &&& bytes matches Some(b)
            &&& content(b) == g
            &&& after is Taken
        },
        None => bytes is None && after == before,
    }
}

/// The number of bytes that were gathered, or zero if they cannot be had.
pub open spec fn gathered_len(agg: BytesAgg) -> nat {
    match agg.gathered() {
        Some(g) => g.len(),
        None => 0,
    }
}

/// A call on what gathers bytes.
pub enum AggCall {
    /// Bytes were put, and it was said whether they were added.
    Put(Seq<u8>, bool),
    Poison,
}

/// The state `before` leads to the state `after` by a call.
pub open spec fn called(before: BytesAgg, call: AggCall, after: BytesAgg) -> bool {
    match call {
        AggCall::Put(bytes, added) => put_into(before, bytes, added, after),
        AggCall::Poison => after is Poisoned,
    }
}

/// `states` are the states from the start on, with nothing gathered, one more for each call.
pub open spec fn calls_made(states: Seq<BytesAgg>, calls: Seq<AggCall>) -> bool {
    &&& states.len() == calls.len() + 1
    &&& states[0].gathered() == Some(Seq::<u8>::empty())
    &&& forall|i: int|
        0 <= i < calls.len() ==> called(states[i], #[trigger] calls[i], states[i + 1])
}

/// All bytes that were put, in order.
pub open spec fn all_put(calls: Seq<AggCall>) -> Seq<u8>
    decreases calls.len(),
{
    if calls.len() == 0 {
        Seq::empty()
    } else {
        match calls.last() {
            AggCall::Put(bytes, _) => all_put(calls.drop_last()) + bytes,
            AggCall::Poison => all_put(calls.drop_last()),
        }
    }
}

/// The bytes were given up by one of the calls.
pub open spec fn gave_up(calls: Seq<AggCall>) -> bool {
    exists|i: int| 0 <= i < calls.len() && #[trigger] calls[i] is Poison
}

proof fn lemma_gathered(states: Seq<BytesAgg>, calls: Seq<AggCall>)
    requires
        calls_made(states, calls),
    ensures
        if gave_up(calls) {
            states.last() is Poisoned
        } else {
            states.last().gathered() == Some(all_put(calls))
        },
    decreases calls.len(),
{
    if calls.len() > 0 {
        let less = calls.drop_last();
        let n = less.len() as int;
        assert forall|i: int| 0 <= i < less.len() implies called(
            states.drop_last()[i],
            #[trigger] less[i],
            states.drop_last()[i + 1],
        ) by {
            assert(calls[i] == less[i]);
        }
        lemma_gathered(states.drop_last(), less);
        assert(called(states[n], calls[n], states[n + 1]));
        if gave_up(less) {
            let i = choose|i: int| 0 <= i < less.len() && #[trigger] less[i] is Poison;
            assert(calls[i] is Poison);
        } else if gave_up(calls) {
            let i = choose|i: int| 0 <= i < calls.len() && #[trigger] calls[i] is Poison;
            assert(i == n || less[i] is Poison);
        }
    }
}

/// Bytes are added exactly until they are given up: a call to put some says so.
pub proof fn bytes_are_added_until_given_up(states: Seq<BytesAgg>, calls: Seq<AggCall>, at: int)
    requires
        calls_made(states, calls),
        0 <= at < calls.len(),
        calls[at] is Put,
    ensures
        calls[at]->Put_1 == !gave_up(calls.take(at)),
{
    let past = calls.take(at);
    let seen = states.take(at + 1);
    assert forall|i: int| 0 <= i < past.len() implies called(
        seen[i],
        #[trigger] past[i],
        seen[i + 1],
    ) by {
        assert(past[i] == calls[i]);
    }
    lemma_gathered(seen, past);
    assert(called(states[at], calls[at], states[at + 1]));
}

/// What is taken is all that was put, in order, whatever room there was at first; nothing is, if the
/// bytes were given up. Thereafter nothing can be taken or added any more.
pub proof fn what_was_put_is_taken(
    states: Seq<BytesAgg>,
    calls: Seq<AggCall>,
    bytes: Option<Bytes>,
    after: BytesAgg,
)
    requires
        calls_made(states, calls),
        taken_from(states.last(), bytes, after),
    ensures
        bytes is Some == !gave_up(calls),
        bytes matches Some(b) ==> content(b) == all_put(calls),
        gathered_len(after) == 0,
        forall|again: Option<Bytes>, end: BytesAgg| #[trigger]
            taken_from(after, again, end) ==> again is None && end == after,
        forall|more: Seq<u8>, added: bool, end: BytesAgg| #[trigger]
            put_into(after, more, added, end) ==> !added && end == after,
{
    lemma_gathered(states, calls);
}

/// What a stream yields: bytes, an error, its end, or nothing yet.
pub enum UpstreamEvent {
    Chunk(Bytes),
    Error,
    End,
    Pending,
}

/// What is done when a stream is over and goes away.
pub struct Closing {
    /// The image to save to the cache.
    pub save: Option<Bytes>,
    /// The bytes that came down from upstream and went up to the client, if that is known.
    pub transferred: Option<u64>,
    /// The request counts as failed.
    pub failed: bool,
}

/// The stream for an image that was not in the cache.
///
/// It hands what comes from upstream to the client, and gathers it. Once the stream has come to its
/// end without an error, what was gathered is the image, and is saved to the cache.
pub struct ChunkedUpstreamPoll {
    agg: BytesAgg,
    ended: bool,
    sent: Ghost<Seq<u8>>,
}

impl ChunkedUpstreamPoll {
    /// The state of the gathering.
    pub closed spec fn agg(self) -> BytesAgg {
        self.agg
    }

    /// The upstream stream has come to its end.
    pub closed spec fn ended(self) -> bool {
        self.ended
    }

    /// The bytes that were handed to the client, in order.
    pub closed spec fn sent(self) -> Seq<u8> {
        self.sent@
    }

    #[verifier::type_invariant]
    spec fn inv(self) -> bool {
        self.agg.gathered() matches Some(g) ==> g == self.sent@
    }

    /// A stream of which nothing came yet, with room for `size_hint` bytes.
    pub fn new(size_hint: usize) -> (stream: Self)
        requires
            size_hint <= isize::MAX,
        ensures
            stream.agg() is Stable,
            stream.sent() == Seq::<u8>::empty(),
            !stream.ended(),
    {
        ChunkedUpstreamPoll {
            agg: BytesAgg::new(size_hint),
            ended: false,
            sent: Ghost(Seq::empty()),
        }
    }

    /// The number of bytes gathered, or zero if they cannot be had.
    pub fn gathered_len(&self) -> (len: usize)
        ensures
            len == if self.agg() is Stable {
                self.sent().len()
            } else {
                0
            },
    {
        proof {
            use_type_invariant(self);
        }
        self.agg.len()
    }

    /// Takes what upstream yields, and yields the same to the client.
    pub fn poll_next(&mut self, event: UpstreamEvent) -> (yielded: UpstreamEvent)
        requires
            event matches UpstreamEvent::Chunk(bytes) ==> old(self).agg() is Stable ==> old(
                self,
            ).sent().len() + content(bytes).len() <= isize::MAX / 2,
        ensures
            yielded == event,
            polled(*old(self), event, *final(self)),
    {
        proof {
            use_type_invariant(&*self);
        }
        match &event {
            UpstreamEvent::Chunk(bytes) => {
                let mut agg = BytesAgg::Taken;
                std::mem::swap(&mut self.agg, &mut agg);
                let slice: &[u8] = as_slice(bytes);
                agg.put(slice);
                self.sent = Ghost(self.sent@ + slice@);
                self.agg = agg;
            },
            UpstreamEvent::Error => {
                self.agg = BytesAgg::Poisoned;
            },
            UpstreamEvent::End => {
                self.ended = true;
            },
            UpstreamEvent::Pending => {},
        }
        event
    }

    /// What is done when the stream goes away. What is saved is all that was handed to the client,
    /// and only if the stream came to its end.
    pub fn close(&mut self) -> (closing: Closing)
        ensures
            closes_with(*old(self), closing),
            final(self).sent() == old(self).sent(),
            final(self).ended() == old(self).ended(),
            final(self).agg() == if old(self).agg() is Stable {
                BytesAgg::Taken
            } else {
                old(self).agg()
            },
    {
        proof {
            use_type_invariant(&*self);
        }
        let mut agg = BytesAgg::Taken;
        std::mem::swap(&mut self.agg, &mut agg);
        let taken: Option<Bytes> = agg.take();
        let failed: bool = agg.is_poisoned();
        self.agg = agg;
        match taken {
            Some(bytes) => {
                let len: u64 = as_slice(&bytes).len() as u64;
                let save: Option<Bytes> = if self.ended {
                    Some(bytes)
                } else {
                    None
                };
                Closing { save, transferred: Some(len), failed }
            },
            None => Closing { save: None, transferred: None, failed },
        }
    }
}

/// `after` is the state of a stream that was in the state `before`, once upstream yielded `event`.
pub open spec fn polled(
    before: ChunkedUpstreamPoll,
    event: UpstreamEvent,
    after: ChunkedUpstreamPoll,
) -> bool {
    match event {
        UpstreamEvent::Chunk(bytes) => {
            &&& after.sent() == before.sent() + content(bytes)
            &&& after.ended() == before.ended()
            &&& after.agg() is Stable == before.agg() is Stable
            &&& !(before.agg() is Stable) ==> after.agg() == before.agg()
        },
        UpstreamEvent::Error => {
            &&& after.sent() == before.sent()
            &&& after.ended() == before.ended()
            &&& after.agg() is Poisoned
        },
        UpstreamEvent::End => {
            &&& after.sent() == before.sent()
            &&& after.ended()
            &&& after.agg() == before.agg()
        },
        UpstreamEvent::Pending => after == before,
    }
}

/// `closing` is what is done when a stream goes away in the state `stream`.
pub open spec fn closes_with(stream: ChunkedUpstreamPoll, closing: Closing) -> bool {
    &&& closing.failed == (stream.agg() is Poisoned)
    &&& closing.save is Some == (stream.agg() is Stable && stream.ended())
    &&& closing.save matches Some(bytes) ==> content(bytes) == stream.sent()
    &&& closing.transferred == if stream.agg() is Stable {
        Some(stream.sent().len() as u64)
    } else {
        None
    }
}

/// The bytes that upstream yielded, in order.
pub open spec fn body_of(events: Seq<UpstreamEvent>) -> Seq<u8>
    decreases events.len(),
{
    if events.len() == 0 {
        Seq::empty()
    } else {
        match events.last() {
            UpstreamEvent::Chunk(bytes) => body_of(events.drop_last()) + content(bytes),
            _ => body_of(events.drop_last()),
        }
    }
}

/// Upstream yielded an error.
pub open spec fn had_error(events: Seq<UpstreamEvent>) -> bool {
    exists|i: int| 0 <= i < events.len() && #[trigger] events[i] is Error
}

/// Upstream came to its end.
pub open spec fn had_end(events: Seq<UpstreamEvent>) -> bool {
    exists|i: int| 0 <= i < events.len() && #[trigger] events[i] is End
}

/// `states` are the states of a stream from its start on, one more for each event.
pub open spec fn run(states: Seq<ChunkedUpstreamPoll>, events: Seq<UpstreamEvent>) -> bool {
    &&& states.len() == events.len() + 1
    &&& states[0].agg() is Stable
    &&& states[0].sent() == Seq::<u8>::empty()
    &&& !states[0].ended()
    &&& forall|i: int|
        0 <= i < events.len() ==> polled(states[i], #[trigger] events[i], states[i + 1])
}

proof fn lemma_run(states: Seq<ChunkedUpstreamPoll>, events: Seq<UpstreamEvent>)
    requires
        run(states, events),
    ensures
        states.last().sent() == body_of(events),
        states.last().ended() == had_end(events),
        states.last().agg() is Poisoned == had_error(events),
        states.last().agg() is Stable == !had_error(events),
    decreases events.len(),
{
    if events.len() > 0 {
        let less = events.drop_last();
        let n = less.len() as int;
        assert forall|i: int| 0 <= i < less.len() implies polled(
            states.drop_last()[i],
            #[trigger] less[i],
            states.drop_last()[i + 1],
        ) by {
            assert(events[i] == less[i]);
        }
        lemma_run(states.drop_last(), less);
        assert(polled(states[n], events[n], states[n + 1]));
        if had_error(less) {
            let i = choose|i: int| 0 <= i < less.len() && #[trigger] less[i] is Error;
            assert(events[i] is Error);
        }
        if had_end(less) {
            let i = choose|i: int| 0 <= i < less.len() && #[trigger] less[i] is End;
            assert(events[i] is End);
        }
        if had_error(events) && !(events[n] is Error) {
            let i = choose|i: int| 0 <= i < events.len() && #[trigger] events[i] is Error;
            assert(less[i] is Error);
        }
        if had_end(events) && !(events[n] is End) {
            let i = choose|i: int| 0 <= i < events.len() && #[trigger] events[i] is End;
            assert(less[i] is End);
        }
    }
}

/// The cache gets the whole image or nothing: it gets all that upstream yielded, if upstream came to
/// its end without an error, and else nothing. A request counts as failed if upstream yielded an
/// error; else all that upstream yielded counts as transferred.
pub proof fn whole_images_are_saved(
    states: Seq<ChunkedUpstreamPoll>,
    events: Seq<UpstreamEvent>,
    closing: Closing,
)
    requires
        run(states, events),
        closes_with(states.last(), closing),
    ensures
        closing.save is Some == (had_end(events) && !had_error(events)),
        closing.save matches Some(bytes) ==> content(bytes) == body_of(events),
        closing.failed == had_error(events),
        closing.transferred == if had_error(events) {
            None
        } else {
            Some(body_of(events).len() as u64)
        },
{
    lemma_run(states, events);
}

/// The status of the response to a request whose upstream failed: bad gateway.
pub const UPSTREAM_ERROR_STATUS: u16 = 502;

/// The text of an error of the upstream stream.
pub fn upstream_error_text(base: &str) -> (text: String)
    ensures
        text@ == "upstream error: "@ + base@,
{
    let mut text: String = "upstream error: ".to_string();
    text.append(base);
    text
}

} // verus!
