//! The queue through which chunks go from the source to the listeners.
//!
//! The queue is the `bus_queue` crate's. Sending to it never waits: once it is
//! full, each chunk takes the place of the oldest one, and a listener that falls
//! behind misses chunks.

use futures::{FutureExt, SinkExt};
use vstd::prelude::*;

verus! {

/// A queue: a `bus_queue::Publisher`, and a `bus_queue::Subscriber` of its own
/// from which nothing is ever taken.
#[verifier::external_body]
pub struct Queue {
    publisher: bus_queue::Publisher<bytes::Bytes>,
    subscriber: bus_queue::Subscriber<bytes::Bytes>,
}

/// The end of a queue at which one listener waits.
#[verifier::external_body]
#[derive(Debug)]
pub struct Subscriber {
    /// The end of the queue, to wait at.
    pub queue: bus_queue::Subscriber<bytes::Bytes>,
}

/// Every chunk that was ever sent to a queue, in its order.
pub uninterp spec fn chunks_sent(queue: Queue) -> Seq<Seq<u8>>;

/// The number of chunks that a queue keeps.
pub uninterp spec fn queue_limit(queue: Queue) -> usize;

/// The chunks that the queue held for the end of a listener when it was made, each
/// place of the queue once. They are handed out first, in their order, but for
/// those that are overwritten before their turn comes.
pub uninterp spec fn backlog(subscriber: Subscriber) -> Seq<Seq<u8>>;

/// Whether the end is one of this queue, so that what is sent to the queue comes
/// there.
pub uninterp spec fn attached(queue: Queue, subscriber: Subscriber) -> bool;

/// Whether there can be a queue of this size: it has one place more than it keeps
/// chunks, and each place takes no more than eight bytes.
pub open spec fn fits(size: usize) -> bool {
    (size + 1) * 8 <= isize::MAX
}

/// The last chunks, at most `limit` of them.
pub open spec fn newest(chunks: Seq<Seq<u8>>, limit: int) -> Seq<Seq<u8>> {
    if chunks.len() <= limit {
        chunks
    } else {
        chunks.skip(chunks.len() - limit)
    }
}

/// The number that a queue has counted of the chunks that were sent to it: a `usize`
/// that starts again at zero behind the largest number.
pub open spec fn counted(chunks: Seq<Seq<u8>>) -> int {
    chunks.len() as int % (usize::MAX + 1)
}

/// The chunks that a queue holds for one who joins: the newest ones, as many as it
/// keeps, but none from before its count last started again. Even a queue that is
/// to keep none has a place for one chunk.
pub open spec fn held(chunks: Seq<Seq<u8>>, limit: usize) -> Seq<Seq<u8>> {
    let places = if limit == 0 {
        1
    } else {
        limit as int
    };
    if counted(chunks) < places {
        newest(chunks, counted(chunks))
    } else {
        newest(chunks, places)
    }
}

/// A queue that has not counted all numbers yet holds the newest chunks, as many as
/// it keeps.
pub proof fn lemma_held(chunks: Seq<Seq<u8>>, limit: usize)
    requires
        limit > 0,
        chunks.len() <= usize::MAX,
    ensures
        held(chunks, limit) == newest(chunks, limit as int),
{
    vstd::arithmetic::div_mod::lemma_small_mod(chunks.len(), (usize::MAX + 1) as nat);
}

/// Calls `bus_queue::bounded`, which makes a queue for a number of chunks. It
/// panics where no memory of that size can be asked for.
#[verifier::external_body]
pub(crate) fn bounded(size: usize) -> (r: Queue)
    requires
        fits(size),
    ensures
        chunks_sent(r) == Seq::<Seq<u8>>::empty(),
        queue_limit(r) == size,
{
    let (publisher, subscriber) = bus_queue::bounded(size);
    Queue { publisher, subscriber }
}

/// Calls `send` of `futures::SinkExt` on the `bus_queue::Publisher`, which is done
/// at once. It fails only where the queue has no receiving end, and a [`Queue`]
/// keeps one. The ends of the queue stay its ends.
#[verifier::external_body]
pub(crate) fn send(queue: &mut Queue, chunk: Vec<u8>) -> (r: Result<(), String>)
    ensures
        r is Ok,
        chunks_sent(*final(queue)) == chunks_sent(*old(queue)).push(chunk@),
        queue_limit(*final(queue)) == queue_limit(*old(queue)),
        forall|s: Subscriber|
            attached(*old(queue), s) ==> #[trigger] attached(*final(queue), s),
{
    let sent = queue.publisher.send(bytes::Bytes::from(chunk)).now_or_never();
    sent.unwrap().map_err(|e| e.to_string())
}

/// Calls `clone` of the `bus_queue::Subscriber` from which nothing was taken. It
/// gives another end of the same queue, which starts to read at zero and hands out
/// first what the queue holds for one who joins. An end of a queue that is to keep
/// no chunks hands out the last one again and again.
#[verifier::external_body]
pub(crate) fn subscribe(queue: &Queue) -> (r: Subscriber)
    ensures
        backlog(r) == held(chunks_sent(*queue), queue_limit(*queue)),
        attached(*queue, r),
{
    Subscriber { queue: queue.subscriber.clone() }
}

} // verus!
