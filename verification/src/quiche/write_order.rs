//! What becomes of the bytes that wait to be written.

use crate::channel::write_rx;
use crate::payload::payload;
use crate::quiche::conn::{StreamId, StreamWriter};
use crate::quiche::driver::{
    enqueue, enqueue_all, message_chunk, settle_queue, settled, Chunk, SendOutcome,
    StreamQuicDriver, WriteAction, WriteView,
};
use crate::stream::asks_write;
use vstd::prelude::*;

verus! {

/// The bytes of a queue, in order.
pub open spec fn queued_bytes(queue: Seq<Chunk>) -> Seq<u8>
    decreases queue.len(),
{
    if queue.len() == 0 {
        Seq::<u8>::empty()
    } else {
        queued_bytes(queue.drop_last()) + queue.last().0
    }
}

/// The queue of a stream, empty where the stream has none.
pub open spec fn queue_of(pending: Map<StreamId, Seq<Chunk>>, s: StreamId) -> Seq<Chunk> {
    if pending.contains_key(s) {
        pending[s]
    } else {
        Seq::<Chunk>::empty()
    }
}

/// The chunks that messages hold for one stream, in order.
pub open spec fn chunks_for(messages: Seq<StreamWriter>, s: StreamId) -> Seq<Chunk>
    decreases messages.len(),
{
    if messages.len() == 0 {
        Seq::<Chunk>::empty()
    } else if messages.last().0 == s {
        chunks_for(messages.drop_last(), s).push(message_chunk(messages.last()))
    } else {
        chunks_for(messages.drop_last(), s)
    }
}

/// The bytes that the connection took of the first chunk of a queue.
pub open spec fn taken_bytes(queue: Seq<Chunk>, outcome: SendOutcome) -> Seq<u8> {
    match outcome {
        SendOutcome::Accepted(n) => queue[0].0.take(n as int),
        _ => Seq::<u8>::empty(),
    }
}

/// The bytes of a queue are those of its first chunk and then those of the rest.
proof fn lemma_first_bytes(queue: Seq<Chunk>)
    requires
        queue.len() > 0,
    ensures
        queued_bytes(queue) == queue[0].0 + queued_bytes(queue.drop_first()),
    decreases queue.len(),
{
    if queue.len() == 1 {
        assert(queue.drop_last() =~= Seq::<Chunk>::empty());
        assert(queue.drop_first() =~= Seq::<Chunk>::empty());
        assert(queued_bytes(queue) =~= queue[0].0 + queued_bytes(queue.drop_first()));
    } else {
        lemma_first_bytes(queue.drop_last());
        assert(queue.drop_last().drop_first() =~= queue.drop_first().drop_last());
        assert(queued_bytes(queue) =~= queue[0].0 + queued_bytes(queue.drop_first()));
    }
}

/// Messages join the queue of their own stream, behind what waits there and in the order in which
/// they came, and no other.
pub proof fn law_writes_queue_in_order(
    pending: Map<StreamId, Seq<Chunk>>,
    messages: Seq<StreamWriter>,
    s: StreamId,
)
    ensures
        queue_of(enqueue_all(pending, messages), s) == queue_of(pending, s) + chunks_for(
            messages,
            s,
        ),
    decreases messages.len(),
{
    if messages.len() > 0 {
        law_writes_queue_in_order(pending, messages.drop_last(), s);
    }
    assert(queue_of(enqueue_all(pending, messages), s) =~= queue_of(pending, s) + chunks_for(
        messages,
        s,
    ));
}

/// What a stream object asked to be written joins its stream's queue as it was given, with its end
/// mark.
pub proof fn law_write_is_queued(
    pending: Map<StreamId, Seq<Chunk>>,
    message: StreamWriter,
    s: StreamId,
    content: Seq<u8>,
    fin: bool,
)
    requires
        asks_write(message, s, content, fin),
    ensures
        queue_of(enqueue(pending, message), s) == queue_of(pending, s).push((content, fin)),
        queued_bytes(queue_of(enqueue(pending, message), s)) == queued_bytes(queue_of(pending, s))
            + content,
{
    let queue = queue_of(pending, s);
    assert(queue.push((content, fin)).drop_last() =~= queue);
}

/// What the connection took and what still waits are, in this order, what waited before: no byte
/// is lost, repeated or moved, unless the stream failed.
pub proof fn law_send_keeps_bytes(queue: Seq<Chunk>, outcome: SendOutcome)
    requires
        queue.len() > 0,
        outcome !is Failed,
        outcome matches SendOutcome::Accepted(n) ==> n <= queue[0].0.len(),
    ensures
        taken_bytes(queue, outcome) + queued_bytes(settle_queue(queue, outcome)) == queued_bytes(
            queue,
        ),
{
    lemma_first_bytes(queue);
    let rest = settle_queue(queue, outcome);
    match outcome {
        SendOutcome::Accepted(n) => {
            let first = queue[0].0;
            if n == first.len() {
                assert(first.take(n as int) =~= first);
            } else {
                lemma_first_bytes(rest);
                assert(rest.drop_first() =~= queue.drop_first());
                assert(first =~= first.take(n as int) + first.skip(n as int));
            }
        },
        _ => {},
    }
    assert(taken_bytes(queue, outcome) + queued_bytes(rest) =~= queued_bytes(queue));
}

/// A queue after chunks of its met with `outcomes` one after the other.
pub open spec fn settle_all(queue: Seq<Chunk>, outcomes: Seq<SendOutcome>) -> Seq<Chunk>
    decreases outcomes.len(),
{
    if outcomes.len() == 0 {
        queue
    } else {
        settle_queue(settle_all(queue, outcomes.drop_last()), outcomes.last())
    }
}

/// The bytes that the connection took over all of `outcomes`.
pub open spec fn taken_all(queue: Seq<Chunk>, outcomes: Seq<SendOutcome>) -> Seq<u8>
    decreases outcomes.len(),
{
    if outcomes.len() == 0 {
        Seq::<u8>::empty()
    } else {
        taken_all(queue, outcomes.drop_last()) + taken_bytes(
            settle_all(queue, outcomes.drop_last()),
            outcomes.last(),
        )
    }
}

/// Each outcome is one that the first chunk can meet with at its turn, and none is a failure.
pub open spec fn can_meet(queue: Seq<Chunk>, outcomes: Seq<SendOutcome>) -> bool
    decreases outcomes.len(),
{
    outcomes.len() == 0 || {
        let now = settle_all(queue, outcomes.drop_last());
        &&& can_meet(queue, outcomes.drop_last())
        &&& now.len() > 0
        &&& outcomes.last() !is Failed
        &&& outcomes.last() matches SendOutcome::Accepted(n) ==> n <= now[0].0.len()
    }
}

/// However often a queue is tried, and whatever part the connection takes each time, the bytes it
/// took and the bytes that wait are the bytes that were queued, in order.
pub proof fn law_stream_bytes_in_order(queue: Seq<Chunk>, outcomes: Seq<SendOutcome>)
    requires
        can_meet(queue, outcomes),
    ensures
        taken_all(queue, outcomes) + queued_bytes(settle_all(queue, outcomes)) == queued_bytes(
            queue,
        ),
    decreases outcomes.len(),
{
    if outcomes.len() > 0 {
        let before = outcomes.drop_last();
        law_stream_bytes_in_order(queue, before);
        law_send_keeps_bytes(settle_all(queue, before), outcomes.last());
    }
    assert(taken_all(queue, outcomes) + queued_bytes(settle_all(queue, outcomes)) =~= queued_bytes(
        queue,
    ));
}

/// A stream ends where its writer said: the end mark stays with the last of a chunk's bytes.
pub proof fn law_end_mark_stays(queue: Seq<Chunk>, outcome: SendOutcome)
    requires
        queue.len() > 0,
        outcome matches SendOutcome::Accepted(n) ==> n <= queue[0].0.len(),
        !settled(queue, outcome),
    ensures
        settle_queue(queue, outcome).len() == queue.len(),
        forall|i: int|
            0 <= i < queue.len() ==> (#[trigger] settle_queue(queue, outcome)[i]).1 == queue[i].1,
{
}

/// What becomes of one stream's chunk changes no other stream's queue.
pub proof fn law_streams_independent(view: WriteView, outcome: SendOutcome, s: StreamId)
    requires
        view.wf(),
        view.expects(outcome),
        s != view.flush.last(),
    ensures
        queue_of(view.on_sent(outcome).pending, s) == queue_of(view.pending, s),
{
}

/// Each outcome takes a pass nearer to its end: the stream that was tried is done with, or its
/// queue is shorter. A blocked stream does not end the pass: the streams that were to be tried
/// after it still are.
pub proof fn law_pass_goes_on(view: WriteView, outcome: SendOutcome)
    requires
        view.wf(),
        view.expects(outcome),
    ensures
        view.on_sent(outcome).wf(),
        ({
            let next = view.on_sent(outcome);
            let s = view.flush.last();
            ||| next.flush == view.flush.drop_last()
            ||| next.flush == view.flush && next.pending[s].len() < view.pending[s].len()
        }),
        outcome is Blocked ==> view.on_sent(outcome).flush == view.flush.drop_last()
            && view.on_sent(outcome).pending == view.pending,
{
    let next = view.on_sent(outcome);
    let s = view.flush.last();
    assert(view.pending.contains_key(view.flush[view.flush.len() - 1]));
    assert forall|i: int| 0 <= i < next.flush.len() implies next.pending.contains_key(
        #[trigger] next.flush[i],
    ) by {
        assert(view.pending.contains_key(view.flush[i]));
    }
    if outcome is Blocked {
        assert(next.pending =~= view.pending);
    }
}

/// A pass after the first `k` outcomes.
pub open spec fn pass_after(view: WriteView, outcomes: Seq<SendOutcome>, k: int) -> WriteView
    decreases k,
{
    if k <= 0 {
        view
    } else {
        pass_after(view, outcomes, k - 1).on_sent(outcomes[k - 1])
    }
}

/// Each outcome is one that the chunk being tried can meet with at its turn.
pub open spec fn pass_meets(view: WriteView, outcomes: Seq<SendOutcome>) -> bool {
    forall|k: int|
        0 <= k < outcomes.len() ==> (#[trigger] pass_after(view, outcomes, k)).expects(outcomes[k])
}

/// The stream was tried, and took nothing or only a part of the chunk.
pub open spec fn leaves(view: WriteView, outcome: SendOutcome, s: StreamId) -> bool {
    &&& view.flush.len() > 0
    &&& view.flush.last() == s
    &&& match outcome {
        SendOutcome::Accepted(n) => n < view.pending[s][0].0.len(),
        SendOutcome::Blocked => true,
        SendOutcome::Failed => false,
    }
}

/// A stream whose chunks wait is still to be tried, or was left by its last try.
proof fn lemma_pass(view: WriteView, outcomes: Seq<SendOutcome>, s: StreamId, k: int) -> (i: int)
    requires
        view.wf(),
        view.flush.to_set() == view.pending.dom(),
        pass_meets(view, outcomes),
        0 <= k <= outcomes.len(),
    ensures
        pass_after(view, outcomes, k).wf(),
        pass_after(view, outcomes, k).pending.contains_key(s) ==> {
            ||| pass_after(view, outcomes, k).flush.contains(s)
            ||| 0 <= i < k && leaves(pass_after(view, outcomes, i), outcomes[i], s) && forall|j: int|
                i < j <= k ==> !(#[trigger] pass_after(view, outcomes, j)).flush.contains(s)
        },
    decreases k,
{
    if k == 0 {
        if view.pending.contains_key(s) {
            assert(view.flush.to_set().contains(s));
        }
        0
    } else {
        let i = lemma_pass(view, outcomes, s, k - 1);
        let before = pass_after(view, outcomes, k - 1);
        let outcome = outcomes[k - 1];
        let now = pass_after(view, outcomes, k);
        assert(before.expects(outcome));
        law_pass_goes_on(before, outcome);
        let n = before.flush.len() - 1;
        let t = before.flush[n];
        assert(before.pending.contains_key(t));
        if s == t {
            if now.flush == before.flush {
                assert(now.flush[n] == s);
                i
            } else {
                assert(now.flush =~= before.flush.drop_last());
                assert(!now.flush.contains(s));
                k - 1
            }
        } else {
            assert(now.pending.contains_key(s) <==> before.pending.contains_key(s));
            if before.flush.contains(s) {
                let m = choose|m: int| 0 <= m < before.flush.len() && before.flush[m] == s;
                assert(now.flush[m] == s);
            } else {
                assert forall|m: int| 0 <= m < now.flush.len() implies now.flush[m] != s by {
                    assert(before.flush[m] == now.flush[m]);
                    assert(before.flush.contains(before.flush[m]));
                }
            }
            i
        }
    }
}

/// What a whole pass leaves: every stream whose chunks still wait is one that took nothing, or
/// only a part of a chunk, when it was last tried. All other queues are empty and gone.
pub proof fn law_pass_leaves_only_unfinished(
    view: WriteView,
    outcomes: Seq<SendOutcome>,
    s: StreamId,
) -> (i: int)
    requires
        view.wf(),
        view.flush.to_set() == view.pending.dom(),
        pass_meets(view, outcomes),
        pass_after(view, outcomes, outcomes.len() as int).flush.len() == 0,
        pass_after(view, outcomes, outcomes.len() as int).pending.contains_key(s),
    ensures
        pass_after(view, outcomes, outcomes.len() as int).pending[s].len() > 0,
        0 <= i < outcomes.len(),
        leaves(pass_after(view, outcomes, i), outcomes[i], s),
        forall|j: int|
            i < j < outcomes.len() ==> (#[trigger] pass_after(view, outcomes, j)).flush.last() != s,
{
    let n = outcomes.len() as int;
    let i = lemma_pass(view, outcomes, s, n);
    assert forall|j: int| i < j < n implies (#[trigger] pass_after(
        view,
        outcomes,
        j,
    )).flush.last() != s by {
        let at = pass_after(view, outcomes, j);
        assert(at.expects(outcomes[j]));
        assert(at.flush.contains(at.flush[at.flush.len() - 1]));
    }
    i
}

/// A chunk that is done with leaves its queue alone: what follows it, empty chunks too, stays as
/// it is, in order and with its end marks. A chunk that is not done with stays the first, without
/// the bytes that were taken, and keeps its end mark.
pub proof fn law_chunk_leaves_alone(queue: Seq<Chunk>, outcome: SendOutcome)
    requires
        queue.len() > 0,
        outcome matches SendOutcome::Accepted(n) ==> n <= queue[0].0.len(),
    ensures
        (outcome is Failed || (outcome matches SendOutcome::Accepted(n) && n == queue[0].0.len())) ==> {
            &&& settled(queue, outcome)
            &&& settle_queue(queue, outcome).len() == queue.len() - 1
            &&& forall|i: int|
                0 <= i < queue.len() - 1 ==> #[trigger] settle_queue(queue, outcome)[i] == queue[i
                    + 1]
        },
        !(outcome is Failed || (outcome matches SendOutcome::Accepted(n) && n == queue[0].0.len())) ==> {
            &&& !settled(queue, outcome)
            &&& settle_queue(queue, outcome).len() == queue.len()
            &&& settle_queue(queue, outcome)[0].1 == queue[0].1
            &&& settle_queue(queue, outcome)[0].0 == (match outcome {
                SendOutcome::Accepted(n) => queue[0].0.subrange(n as int, queue[0].0.len() as int),
                _ => queue[0].0,
            })
            &&& forall|i: int|
                0 < i < queue.len() ==> #[trigger] settle_queue(queue, outcome)[i] == queue[i]
        },
{
    if let SendOutcome::Accepted(n) = outcome {
        assert(queue[0].0.skip(n as int) =~= queue[0].0.subrange(n as int, queue[0].0.len() as int));
    }
}

/// What an outcome does to a pass: the stream that was tried loses the chunk that is done with,
/// and only that; it is tried again at once if more of its chunks wait, and else its turn is over.
/// No other stream is touched.
pub proof fn law_outcome_settles_its_stream(view: WriteView, outcome: SendOutcome, t: StreamId)
    requires
        view.wf(),
        view.expects(outcome),
    ensures
        ({
            let s = view.flush.last();
            let queue = view.pending[s];
            let next = view.on_sent(outcome);
            let done = (outcome is Failed || (outcome matches SendOutcome::Accepted(n) && n == queue[0].0.len()));
            &&& next.pending.contains_key(s) <==> !(done && queue.len() == 1)
            &&& done && queue.len() > 1 ==> {
                &&& next.flush == view.flush
                &&& next.pending[s].len() == queue.len() - 1
                &&& forall|i: int|
                    0 <= i < queue.len() - 1 ==> #[trigger] next.pending[s][i] == queue[i + 1]
            }
            &&& !(done && queue.len() > 1) ==> next.flush == view.flush.take(view.flush.len() - 1)
            &&& !done ==> {
                &&& next.pending[s].len() == queue.len()
                &&& next.pending[s][0].1 == queue[0].1
                &&& next.pending[s][0].0 == (match outcome {
                    SendOutcome::Accepted(n) => queue[0].0.subrange(
                        n as int,
                        queue[0].0.len() as int,
                    ),
                    _ => queue[0].0,
                })
                &&& forall|i: int| 0 < i < queue.len() ==> #[trigger] next.pending[s][i] == queue[i]
            }
            &&& t != s ==> (next.pending.contains_key(t) <==> view.pending.contains_key(t))
            &&& t != s && view.pending.contains_key(t) ==> next.pending[t] == view.pending[t]
        }),
{
    let s = view.flush.last();
    assert(view.pending.contains_key(view.flush[view.flush.len() - 1]));
    law_chunk_leaves_alone(view.pending[s], outcome);
    assert(view.flush.drop_last() =~= view.flush.take(view.flush.len() - 1));
    let rest = settle_queue(view.pending[s], outcome);
    assert(rest.len() > 0 ==> view.on_sent(outcome).pending[s] == rest);
}

/// A queue that was tried often is the end of the queue that it was: some chunks at its head were
/// taken whole, each by an outcome of its own, the first that is left may have lost bytes at its
/// front, and all the others are as they were, empty ones too, with their end marks.
pub proof fn law_queue_keeps_its_chunks(queue: Seq<Chunk>, outcomes: Seq<SendOutcome>) -> (gone: int)
    requires
        can_meet(queue, outcomes),
    ensures
        0 <= gone <= queue.len(),
        gone <= outcomes.len(),
        settle_all(queue, outcomes).len() == queue.len() - gone,
        gone < queue.len() ==> {
            &&& settle_all(queue, outcomes)[0].1 == queue[gone].1
            &&& settle_all(queue, outcomes)[0].0.len() <= queue[gone].0.len()
            &&& settle_all(queue, outcomes)[0].0 == queue[gone].0.skip(
                queue[gone].0.len() - settle_all(queue, outcomes)[0].0.len(),
            )
        },
        forall|i: int|
            0 < i < queue.len() - gone ==> #[trigger] settle_all(queue, outcomes)[i] == queue[gone
                + i],
    decreases outcomes.len(),
{
    if outcomes.len() == 0 {
        if queue.len() > 0 {
            assert(queue[0].0 =~= queue[0].0.skip(0));
        }
        0
    } else {
        let gone = law_queue_keeps_its_chunks(queue, outcomes.drop_last());
        let now = settle_all(queue, outcomes.drop_last());
        let outcome = outcomes.last();
        let next = settle_all(queue, outcomes);
        assert(now[0].0.len() <= queue[gone].0.len());
        law_chunk_leaves_alone(now, outcome);
        if (outcome is Failed || (outcome matches SendOutcome::Accepted(n) && n == now[0].0.len())) {
            if gone + 1 < queue.len() {
                assert(next[0] == now[1]);
                assert(now[1] == queue[gone + 1]);
                assert(queue[gone + 1].0 =~= queue[gone + 1].0.skip(0));
            }
            assert forall|i: int| 0 < i < queue.len() - (gone + 1) implies #[trigger] next[i]
                == queue[gone + 1 + i] by {
                assert(next[i] == now[i + 1]);
                assert(now[i + 1] == queue[gone + (i + 1)]);
            }
            gone + 1
        } else {
            let whole = queue[gone].0;
            assert(next[0].0 =~= whole.skip(whole.len() - next[0].0.len()));
            gone
        }
    }
}

/// What is tried next is the first chunk of the stream whose turn it is, all of it and with its
/// end mark; a pass stops only where no stream is left to be tried.
pub proof fn law_first_chunk_is_tried(view: WriteView, action: WriteAction)
    requires
        view.wf(),
        view.tries(action),
    ensures
        match action {
            WriteAction::Send { stream_id, data, fin } => {
                &&& view.flush.len() > 0
                &&& stream_id == view.flush[view.flush.len() - 1]
                &&& view.pending.contains_key(stream_id)
                &&& payload(data) == view.pending[stream_id][0].0
                &&& fin == view.pending[stream_id][0].1
            },
            WriteAction::Stop => view.flush.len() == 0,
            WriteAction::SetPriority { .. } => false,
        },
{
    if view.flush.len() > 0 {
        assert(view.pending.contains_key(view.flush[view.flush.len() - 1]));
    }
}

/// A message joins its stream's queue as one chunk at the end: its bytes, or none where it has no
/// data, and its end mark. Nothing that waits changes.
pub proof fn law_message_joins_its_queue(
    pending: Map<StreamId, Seq<Chunk>>,
    message: StreamWriter,
    t: StreamId,
)
    ensures
        ({
            let s = message.0;
            let next = enqueue(pending, message);
            let len = if pending.contains_key(s) {
                pending[s].len()
            } else {
                0
            };
            &&& next.contains_key(s)
            &&& next[s].len() == len + 1
            &&& forall|i: int| 0 <= i < len ==> #[trigger] next[s][i] == pending[s][i]
            &&& next[s].last().1 == message.2
            &&& next[s].last().0 == (match message.1 {
                Some(data) => payload(data),
                None => Seq::<u8>::empty(),
            })
            &&& t != s ==> (next.contains_key(t) <==> pending.contains_key(t))
            &&& t != s && pending.contains_key(t) ==> next[t] == pending[t]
        }),
{
}

/// The chunks that messages hold for a stream are those of its own messages, one for each.
pub proof fn law_messages_keep_their_streams(
    messages: Seq<StreamWriter>,
    message: StreamWriter,
    s: StreamId,
)
    ensures
        chunks_for(Seq::<StreamWriter>::empty(), s) == Seq::<Chunk>::empty(),
        message.0 != s ==> chunks_for(messages.push(message), s) == chunks_for(messages, s),
        message.0 == s ==> {
            &&& chunks_for(messages.push(message), s).len() == chunks_for(messages, s).len() + 1
            &&& chunks_for(messages.push(message), s).drop_last() == chunks_for(messages, s)
            &&& chunks_for(messages.push(message), s).last().1 == message.2
            &&& chunks_for(messages.push(message), s).last().0 == (match message.1 {
                Some(data) => payload(data),
                None => Seq::<u8>::empty(),
            })
        },
{
    assert(messages.push(message).drop_last() =~= messages);
    if message.0 == s {
        assert(chunks_for(messages.push(message), s).drop_last() =~= chunks_for(messages, s));
    }
}

/// What a driver received since waits, stream by stream, behind what waited before, and it
/// received until nothing was left or as much as one pass takes.
pub proof fn law_received_messages_wait(
    driver: StreamQuicDriver,
    before: StreamQuicDriver,
    s: StreamId,
)
    requires
        driver.drained(&before),
        driver.ran_dry(&before),
    ensures
        ({
            let was = write_rx(before.stream_event_recv);
            let now = write_rx(driver.stream_event_recv);
            let received = now.log.subrange(was.log.len() as int, now.log.len() as int);
            &&& now.log == was.log + received
            &&& now.misses == was.misses + 1 || received.len() == u64::MAX
            &&& queue_of(driver.write_view().pending, s) == queue_of(before.write_view().pending, s)
                + chunks_for(received, s)
        }),
{
    let was = write_rx(before.stream_event_recv);
    let now = write_rx(driver.stream_event_recv);
    let received = now.log.subrange(was.log.len() as int, now.log.len() as int);
    assert(received =~= now.log.skip(was.log.len() as int));
    assert(now.log =~= now.log.take(was.log.len() as int) + received);
    law_writes_queue_in_order(before.write_view().pending, received, s);
}

/// The state of a driver's writes is what its queues hold, chunk by chunk.
pub proof fn law_write_view_shows_driver(driver: StreamQuicDriver, s: StreamId, i: int)
    ensures
        driver.write_view().flush == driver.flush@,
        driver.write_view().pending.contains_key(s) <==> driver.pending_writes@.contains_key(s),
        driver.pending_writes@.contains_key(s) ==> driver.write_view().pending[s].len()
            == driver.pending_writes@[s]@.len(),
        driver.pending_writes@.contains_key(s) && 0 <= i < driver.pending_writes@[s]@.len() ==> {
            &&& driver.write_view().pending[s][i].0 == payload(driver.pending_writes@[s]@[i].0)
            &&& driver.write_view().pending[s][i].1 == driver.pending_writes@[s]@[i].1
        },
{
}

/// What was reported, the read under way, the channels to the server and the handshake are
/// untouched by writes.
pub proof fn law_writes_change_nothing_else(driver: StreamQuicDriver, before: StreamQuicDriver)
    requires
        driver.same_but_writes(&before),
    ensures
        driver == (StreamQuicDriver {
            stream_event_recv: driver.stream_event_recv,
            priority_recv: driver.priority_recv,
            pending_writes: driver.pending_writes,
            flush: driver.flush,
            ..before
        }),
{
}

/// The driver takes every outcome that a chunk being tried can meet with.
pub proof fn law_writes_take_every_outcome(view: WriteView, n: usize)
    ensures
        view.expects(SendOutcome::Blocked) <==> view.flush.len() > 0,
        view.expects(SendOutcome::Failed) <==> view.flush.len() > 0,
        view.expects(SendOutcome::Accepted(n)) <==> view.flush.len() > 0 && n
            <= view.pending[view.flush.last()][0].0.len(),
{
}

/// The bytes of a queue are those of its chunks one after the other, and a stream without a queue
/// has no chunks.
pub proof fn law_queue_bytes(
    pending: Map<StreamId, Seq<Chunk>>,
    s: StreamId,
    queue: Seq<Chunk>,
    chunk: Chunk,
)
    ensures
        pending.contains_key(s) ==> queue_of(pending, s) == pending[s],
        !pending.contains_key(s) ==> queue_of(pending, s).len() == 0,
        queued_bytes(Seq::<Chunk>::empty()).len() == 0,
        queued_bytes(queue.push(chunk)) == queued_bytes(queue) + chunk.0,
        queued_bytes(queue.push(chunk)).len() == queued_bytes(queue).len() + chunk.0.len(),
{
    assert(queue.push(chunk).drop_last() =~= queue);
}

} // verus!
