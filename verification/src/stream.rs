//! Feeding a byte source into a hasher, chunk by chunk.
//!
//! Reading a source is not done here. Whoever reads it reports each read as a
//! [`ReadEvent`]; [`StreamHasher::write_stream`] takes the event, writes to
//! the hasher what is due, and answers with what to do next. The bytes read
//! are gathered in chunks of [`CHUNK_SIZE`] bytes, and the hasher is written
//! a chunk as soon as it is full.

use vstd::prelude::*;

use crate::hasher::FastHasher;

verus! {

/// The number of bytes in a chunk.
pub const CHUNK_SIZE: usize = 4096;

/// What one read of a byte source came to.
pub enum ReadEvent<'a> {
    /// The bytes that were read. No bytes: the source is at its end.
    Bytes(&'a [u8]),
    /// The read was interrupted before it read anything. It can be tried
    /// again.
    Interrupted,
    /// The read failed for good.
    Failed,
}

/// How far the feeding of a source has come.
#[derive(Clone, Copy, Debug, PartialEq, Eq, Structural)]
pub enum Phase {
    /// More of the source is to be read.
    Reading,
    /// The source has ended.
    Ended,
    /// A read has failed.
    Failed,
}

/// What is to be done next with the source.
#[derive(Clone, Copy, Debug, PartialEq, Eq, Structural)]
pub enum StreamAction {
    /// Read again, at most `max` bytes.
    Read { max: usize },
    /// Stop: the source has ended after `consumed` bytes.
    Done { consumed: usize },
    /// Stop: a read failed after `consumed` bytes.
    Failed { consumed: usize },
}

/// A hasher and a feed, taken together.
#[verifier::ext_equal]
pub struct Stream {
    /// The bytes written to the hasher.
    pub written: Seq<u8>,
    /// The bytes of the chunk that is being filled.
    pub pending: Seq<u8>,
    /// The number of bytes taken from the source.
    pub consumed: nat,
    /// How far the feeding has come.
    pub phase: Phase,
}

impl Stream {
    /// The stream with which the feeding of a source into a hasher begins,
    /// the hasher holding `written`.
    pub open spec fn start(written: Seq<u8>) -> Stream {
        Stream { written, pending: Seq::empty(), consumed: 0, phase: Phase::Reading }
    }

    /// All bytes that the hasher has been or is still to be written.
    pub open spec fn fed(self) -> Seq<u8> {
        self.written + self.pending
    }

    /// The stream once the chunk has been written to the hasher, in the
    /// phase given.
    pub open spec fn flushed(self, phase: Phase) -> Stream {
        Stream {
            written: self.written + self.pending,
            pending: Seq::empty(),
            consumed: self.consumed,
            phase,
        }
    }

    /// The stream once `bytes` have been read: they join the chunk, and a
    /// chunk that is full is written to the hasher.
    pub open spec fn taken(self, bytes: Seq<u8>) -> Stream {
        let chunk = self.pending + bytes;
        if chunk.len() >= CHUNK_SIZE {
            Stream {
                written: self.written + chunk,
                pending: Seq::empty(),
                consumed: self.consumed + bytes.len(),
                phase: Phase::Reading,
            }
        } else {
            Stream {
                written: self.written,
                pending: chunk,
                consumed: self.consumed + bytes.len(),
                phase: Phase::Reading,
            }
        }
    }

    /// The stream after one event. A stream that has stopped stays as it is.
    pub open spec fn step(self, event: ReadEvent<'_>) -> Stream {
        if self.phase != Phase::Reading {
            self
        } else {
            match event {
                ReadEvent::Bytes(bytes) => if bytes@.len() == 0 {
                    self.flushed(Phase::Ended)
                } else {
                    self.taken(bytes@)
                },
                ReadEvent::Interrupted => self,
                ReadEvent::Failed => self.flushed(Phase::Failed),
            }
        }
    }

    /// The stream after a sequence of events.
    pub open spec fn run(self, events: Seq<ReadEvent<'_>>) -> Stream
        decreases events.len(),
    {
        if events.len() == 0 {
            self
        } else {
            self.step(events[0]).run(events.drop_first())
        }
    }

    /// What is to be done next.
    pub open spec fn action(self) -> StreamAction {
        match self.phase {
            Phase::Reading => StreamAction::Read {
                max: (CHUNK_SIZE - self.pending.len()) as usize,
            },
            Phase::Ended => StreamAction::Done { consumed: self.consumed as usize },
            Phase::Failed => StreamAction::Failed { consumed: self.consumed as usize },
        }
    }
}

/// The bytes that a sequence of events delivers: those of its reads, in
/// order, up to the first read that finds the source at its end or fails.
pub open spec fn delivered(events: Seq<ReadEvent<'_>>) -> Seq<u8>
    decreases events.len(),
{
    if events.len() == 0 {
        Seq::empty()
    } else {
        match events[0] {
            ReadEvent::Bytes(bytes) => if bytes@.len() == 0 {
                Seq::empty()
            } else {
                bytes@ + delivered(events.drop_first())
            },
            ReadEvent::Interrupted => delivered(events.drop_first()),
            ReadEvent::Failed => Seq::empty(),
        }
    }
}

/// The feeding of one source: the chunk that is being filled, and the count
/// of the bytes taken so far.
pub struct StreamFeed {
    chunk: Vec<u8>,
    consumed: usize,
    phase: Phase,
}

impl StreamFeed {
    /// The bytes of the chunk that is being filled.
    pub closed spec fn pending(&self) -> Seq<u8> {
        self.chunk@
    }

    /// The number of bytes taken from the source.
    pub closed spec fn consumed(&self) -> nat {
        self.consumed as nat
    }

    /// How far the feeding has come.
    pub closed spec fn phase(&self) -> Phase {
        self.phase
    }

    /// A chunk is written as soon as it is full, so the one being filled is
    /// never full; and once the feeding has stopped, nothing is pending.
    pub open spec fn wf(&self) -> bool {
        &&& self.pending().len() < CHUNK_SIZE
        &&& self.phase() != Phase::Reading ==> self.pending().len() == 0
    }

    /// This feed and a hasher that holds `written`, taken together.
    pub open spec fn stream(&self, written: Seq<u8>) -> Stream {
        Stream {
            written,
            pending: self.pending(),
            consumed: self.consumed(),
            phase: self.phase(),
        }
    }

    /// A feed for a source of which nothing has been read. The first read
    /// may take a whole chunk.
    pub fn new() -> (feed: StreamFeed)
        ensures
            feed.wf(),
            feed.pending() == Seq::<u8>::empty(),
            feed.consumed() == 0,
            feed.phase() == Phase::Reading,
    {
        StreamFeed { chunk: Vec::with_capacity(CHUNK_SIZE), consumed: 0, phase: Phase::Reading }
    }

    /// The number of bytes that the next read may take.
    pub fn room(&self) -> (max: usize)
        requires
            self.wf(),
        ensures
            max == CHUNK_SIZE - self.pending().len(),
            max > 0,
    {
        CHUNK_SIZE - self.chunk.len()
    }

    /// The number of bytes taken from the source so far.
    pub fn taken(&self) -> (n: usize)
        ensures
            n == self.consumed(),
    {
        self.consumed
    }
}

/// A hasher that can be fed from a byte source without holding the whole
/// source in memory.
pub trait StreamHasher: FastHasher {
    /// Takes what one read of the source came to, and says what to do next.
    ///
    /// Bytes that were read join the chunk; a full chunk is written to this
    /// hasher. An interrupted read changes nothing and is to be tried again.
    /// At the end of the source, and when a read fails for good, what is left
    /// of the chunk is written, and the answer carries the number of bytes
    /// taken from the source. After that the feed has stopped: further events
    /// change nothing and get the same answer.
    fn write_stream(&mut self, feed: &mut StreamFeed, event: ReadEvent<'_>) -> (action:
        StreamAction)
        requires
            old(feed).wf(),
            event matches ReadEvent::Bytes(bytes) ==> old(feed).consumed() + bytes@.len()
                <= usize::MAX,
        ensures
            final(feed).wf(),
            final(self).seed() == old(self).seed(),
            final(feed).stream(final(self).written()) == old(feed).stream(
                old(self).written(),
            ).step(event),
            action == final(feed).stream(final(self).written()).action(),
    {
        match feed.phase {
            Phase::Ended => {
                return StreamAction::Done { consumed: feed.consumed };
            },
            Phase::Failed => {
                return StreamAction::Failed { consumed: feed.consumed };
            },
            Phase::Reading => {},
        }
        let action = match event {
            ReadEvent::Bytes(bytes) => {
                if bytes.len() == 0 {
                    if feed.chunk.len() > 0 {
                        self.write(feed.chunk.as_slice());
                        feed.chunk.clear();
                    }
                    feed.phase = Phase::Ended;
                    StreamAction::Done { consumed: feed.consumed }
                } else {
                    feed.consumed = feed.consumed + bytes.len();
                    feed.chunk.extend_from_slice(bytes);
                    if feed.chunk.len() >= CHUNK_SIZE {
                        self.write(feed.chunk.as_slice());
                        feed.chunk.clear();
                    }
                    StreamAction::Read { max: CHUNK_SIZE - feed.chunk.len() }
                }
            },
            ReadEvent::Interrupted => StreamAction::Read { max: CHUNK_SIZE - feed.chunk.len() },
            ReadEvent::Failed => {
                if feed.chunk.len() > 0 {
                    self.write(feed.chunk.as_slice());
                    feed.chunk.clear();
                }
                feed.phase = Phase::Failed;
                StreamAction::Failed { consumed: feed.consumed }
            },
        };
        assert(feed.stream(self.written()) =~= old(feed).stream(old(self).written()).step(event));
        action
    }
}

/// A stream that has stopped stays as it is, whatever events follow.
pub proof fn lemma_stopped_stays(stream: Stream, events: Seq<ReadEvent<'_>>)
    requires
        stream.phase != Phase::Reading,
    ensures
        stream.run(events) == stream,
    decreases events.len(),
{
    if events.len() > 0 {
        lemma_stopped_stays(stream, events.drop_first());
    }
}

/// Feeding loses and adds nothing. After any events, what the hasher has
/// been written and what is still in the chunk are, together, what they were
/// before followed by what the events delivered; the count has grown by the
/// number of bytes delivered; and once the feeding has stopped, nothing is
/// left in the chunk.
pub proof fn lemma_run_delivers(stream: Stream, events: Seq<ReadEvent<'_>>)
    requires
        stream.phase == Phase::Reading,
    ensures
        stream.run(events).fed() == stream.fed() + delivered(events),
        stream.run(events).consumed == stream.consumed + delivered(events).len(),
        stream.run(events).phase != Phase::Reading ==> stream.run(events).pending.len() == 0,
    decreases events.len(),
{
    if events.len() == 0 {
        assert(stream.fed() + delivered(events) =~= stream.fed());
    } else {
        let next = stream.step(events[0]);
        let rest = events.drop_first();
        if next.phase == Phase::Reading {
            lemma_run_delivers(next, rest);
            match events[0] {
                ReadEvent::Bytes(bytes) => {
                    assert(next.fed() =~= stream.fed() + bytes@);
                    assert((stream.fed() + bytes@) + delivered(rest) =~= stream.fed() + (bytes@
                        + delivered(rest)));
                },
                _ => {},
            }
        } else {
            lemma_stopped_stays(next, rest);
            assert(next.fed() =~= stream.fed());
            assert(stream.fed() + delivered(events) =~= stream.fed());
        }
    }
}

/// A source read to its end, through any reads, comes to the same as one
/// write of all its bytes. The hasher that was fed and a hasher that was
/// written the delivered bytes directly hold the same bytes and finish with
/// the same digest, and the number of bytes reported is the number of bytes
/// delivered.
pub proof fn lemma_stream_is_one_write<H: FastHasher>(
    before: H,
    events: Seq<ReadEvent<'_>>,
    streamed: H,
    direct: H,
    streamed_digest: u64,
    direct_digest: u64,
)
    requires
        Stream::start(before.written()).run(events).phase == Phase::Ended,
        streamed.seed() == before.seed(),
        streamed.written() == Stream::start(before.written()).run(events).written,
        direct.seed() == before.seed(),
        direct.written() == before.written() + delivered(events),
        call_ensures(H::finish, (&streamed,), streamed_digest),
        call_ensures(H::finish, (&direct,), direct_digest),
    ensures
        streamed.written() == direct.written(),
        streamed_digest == direct_digest,
        Stream::start(before.written()).run(events).consumed == delivered(events).len(),
        delivered(events).len() <= usize::MAX ==> Stream::start(before.written()).run(
            events,
        ).action() == (StreamAction::Done { consumed: delivered(events).len() as usize }),
{
    let start = Stream::start(before.written());
    lemma_run_delivers(start, events);
    assert(start.fed() =~= before.written());
    assert(start.run(events).fed() =~= start.run(events).written);
}

} // verus!
