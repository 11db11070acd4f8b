//! In which order a driver reports what it reads.

use crate::channel::{event_permit, event_tx};
use crate::payload::payload;
use crate::quiche::conn::{DriverEvent, StreamId};
use crate::quiche::driver::{
    announcement, client_initiated, reports_data, ReadAction, ReadEvent, ReadView, StreamQuicDriver,
};
use vstd::prelude::*;

verus! {

/// The message announces the stream.
pub open spec fn announces(message: (u64, DriverEvent), s: StreamId) -> bool {
    message.1 == DriverEvent::NewBidi(s) || message.1 == DriverEvent::NewUni(s)
}

/// The message reports the end of the stream.
pub open spec fn ends(message: (u64, DriverEvent), s: StreamId) -> bool {
    message.1 matches DriverEvent::Data { stream_id, fin, .. } && stream_id == s && fin
}

/// The stream was announced, and its end was not reported since.
pub open spec fn open_in(log: Seq<(u64, DriverEvent)>, s: StreamId) -> bool
    decreases log.len(),
{
    if log.len() == 0 {
        false
    } else if announces(log.last(), s) {
        true
    } else if ends(log.last(), s) {
        false
    } else {
        open_in(log.drop_last(), s)
    }
}

/// The stream was announced at some time.
pub open spec fn announced_in(log: Seq<(u64, DriverEvent)>, s: StreamId) -> bool {
    exists|i: int| 0 <= i < log.len() && announces(#[trigger] log[i], s)
}

/// The message at `i` stands where it may: a stream is announced as what it is, only if the peer
/// opened it and only if it is not open already; what comes from a stream of the peer follows the
/// stream's announcement.
pub open spec fn orderly_at(log: Seq<(u64, DriverEvent)>, i: int) -> bool {
    match log[i].1 {
        DriverEvent::NewBidi(s) => client_initiated(s) && log[i].1 == announcement(s) && !open_in(
            log.take(i),
            s,
        ),
        DriverEvent::NewUni(s) => client_initiated(s) && log[i].1 == announcement(s) && !open_in(
            log.take(i),
            s,
        ),
        DriverEvent::Data { stream_id, .. } => client_initiated(stream_id) ==> announced_in(
            log.take(i),
            stream_id,
        ),
    }
}

/// Every message stands where it may.
pub open spec fn orderly(log: Seq<(u64, DriverEvent)>) -> bool {
    forall|i: int| 0 <= i < log.len() ==> #[trigger] orderly_at(log, i)
}

impl ReadView {
    /// The driver has reported in order, under its own number, and remembers exactly the streams
    /// that it announced and that have not ended.
    pub open spec fn in_order(self) -> bool {
        &&& orderly(self.log)
        &&& forall|i: int| 0 <= i < self.log.len() ==> (#[trigger] self.log[i]).0 == self.conn_id
        &&& forall|s: StreamId| #[trigger] self.seen.contains(s) <==> open_in(self.log, s)
        &&& self.reading matches Some(s) ==> client_initiated(s) ==> announced_in(self.log, s)
    }
}

/// A message that stands where it may extends an orderly log to an orderly log.
proof fn lemma_push_orderly(log: Seq<(u64, DriverEvent)>, message: (u64, DriverEvent))
    requires
        orderly(log),
        orderly_at(log.push(message), log.len() as int),
    ensures
        orderly(log.push(message)),
{
    let next = log.push(message);
    assert forall|i: int| 0 <= i < next.len() implies #[trigger] orderly_at(next, i) by {
        if i < log.len() {
            assert(orderly_at(log, i));
            assert(next.take(i) =~= log.take(i));
        }
    }
}

/// A stream that is open was announced.
proof fn lemma_open_is_announced(log: Seq<(u64, DriverEvent)>, s: StreamId)
    requires
        open_in(log, s),
    ensures
        announced_in(log, s),
    decreases log.len(),
{
    if announces(log.last(), s) {
        assert(announces(log[log.len() - 1], s));
    } else {
        lemma_open_is_announced(log.drop_last(), s);
        let i = choose|i: int|
            0 <= i < log.drop_last().len() && announces(#[trigger] log.drop_last()[i], s);
        assert(announces(log[i], s));
    }
}

/// Announcing a stream keeps the reports in order.
proof fn lemma_announce_in_order(view: ReadView, s: StreamId)
    requires
        view.in_order(),
        view.reading is None,
    ensures
        view.announce(s).in_order(),
        client_initiated(s) ==> announced_in(view.announce(s).log, s),
{
    if view.unannounced(s) {
        let message = (view.conn_id, announcement(s));
        let next = view.announce(s);
        assert(next.log.take(view.log.len() as int) =~= view.log);
        assert(orderly_at(next.log, view.log.len() as int));
        lemma_push_orderly(view.log, message);
        assert(next.log.drop_last() =~= view.log);
        assert(announces(next.log[view.log.len() as int], s));
    } else if client_initiated(s) {
        lemma_open_is_announced(view.log, s);
    }
}

/// A driver that meets a stream that can be read keeps its reports in order.
proof fn lemma_readable_in_order(view: ReadView, s: StreamId, action: ReadAction, next: ReadView)
    requires
        view.in_order(),
        view.reading is None,
        view.on_readable(s, action, next),
    ensures
        next.in_order(),
{
    lemma_announce_in_order(view, s);
}

/// A driver that receives a chunk keeps its reports in order.
proof fn lemma_received_in_order(
    view: ReadView,
    data: Seq<u8>,
    fin: bool,
    action: ReadAction,
    next: ReadView,
)
    requires
        view.in_order(),
        view.reading is Some,
        view.on_received(data, fin, action, next),
    ensures
        next.in_order(),
{
    let s = view.reading->0;
    let message = next.log.last();
    let n = view.log.len() as int;
    assert(next.log =~= view.log.push(message));
    assert(next.log.take(n) =~= view.log);
    assert(orderly_at(next.log, n));
    lemma_push_orderly(view.log, message);
    assert forall|t: StreamId| #[trigger] next.seen.contains(t) <==> open_in(next.log, t) by {
        assert(!announces(message, t));
        assert(next.log.drop_last() =~= view.log);
        assert(view.seen.contains(t) <==> open_in(view.log, t));
    }
    if client_initiated(s) {
        let i = choose|i: int| 0 <= i < view.log.len() && announces(#[trigger] view.log[i], s);
        assert(announces(next.log[i], s));
    }
}

/// Whatever the connection answers, a driver keeps its reports in order.
pub proof fn law_reads_in_order(
    view: ReadView,
    event: ReadEvent,
    buffer: Seq<u8>,
    action: ReadAction,
    next: ReadView,
)
    requires
        view.in_order(),
        view.awaits(event, buffer.len()),
        view.on_event(event, buffer, action, next),
    ensures
        next.in_order(),
{
    match event {
        ReadEvent::Readable(Some(s)) => {
            lemma_readable_in_order(view, s, action, next);
        },
        ReadEvent::Received { n, fin } => {
            lemma_received_in_order(view, buffer.take(n as int), fin, action, next);
        },
        _ => {},
    }
}

/// Between two announcements of one stream its end is reported: no stream is announced twice
/// while it is open.
pub proof fn law_announced_once(log: Seq<(u64, DriverEvent)>, i: int, j: int, s: StreamId)
    requires
        orderly(log),
        0 <= i < j < log.len(),
        announces(log[i], s),
        announces(log[j], s),
    ensures
        exists|k: int| i < k < j && ends(#[trigger] log[k], s),
{
    assert(orderly_at(log, j));
    lemma_closed_since(log, i, j, s);
}

/// A stream that was announced at `i` and is not open before `j` ended in between.
proof fn lemma_closed_since(log: Seq<(u64, DriverEvent)>, i: int, j: int, s: StreamId)
    requires
        0 <= i < j <= log.len(),
        announces(log[i], s),
        !open_in(log.take(j), s),
    ensures
        exists|k: int| i < k < j && ends(#[trigger] log[k], s),
    decreases j,
{
    let last = log.take(j).last();
    assert(last == log[j - 1]);
    assert(log.take(j).drop_last() =~= log.take(j - 1));
    if ends(last, s) {
        assert(ends(log[j - 1], s));
    } else {
        lemma_closed_since(log, i, j - 1, s);
        let k = choose|k: int| i < k < j - 1 && ends(#[trigger] log[k], s);
        assert(ends(log[k], s));
    }
}

/// What is reported of a stream of the peer follows the announcement of that stream.
pub proof fn law_announced_before_data(log: Seq<(u64, DriverEvent)>, j: int, s: StreamId)
    requires
        orderly(log),
        0 <= j < log.len(),
        log[j].1 is Data,
        log[j].1->stream_id == s,
        client_initiated(s),
    ensures
        exists|i: int| 0 <= i < j && announces(#[trigger] log[i], s),
{
    assert(orderly_at(log, j));
    let i = choose|i: int| 0 <= i < log.take(j).len() && announces(#[trigger] log.take(j)[i], s);
    assert(announces(log[i], s));
}

/// A stream that the server opened is never announced.
pub proof fn law_own_streams_unannounced(log: Seq<(u64, DriverEvent)>, j: int, s: StreamId)
    requires
        orderly(log),
        0 <= j < log.len(),
        !client_initiated(s),
    ensures
        !announces(log[j], s),
{
    assert(orderly_at(log, j));
}

/// The bytes that were reported of a stream, in order.
pub open spec fn reported_bytes(log: Seq<(u64, DriverEvent)>, s: StreamId) -> Seq<u8>
    decreases log.len(),
{
    if log.len() == 0 {
        Seq::<u8>::empty()
    } else {
        match log.last().1 {
            DriverEvent::Data { stream_id, data, .. } => if stream_id == s {
                reported_bytes(log.drop_last(), s) + payload(data)
            } else {
                reported_bytes(log.drop_last(), s)
            },
            _ => reported_bytes(log.drop_last(), s),
        }
    }
}

/// The bytes that an event brings of a stream.
pub open spec fn received_bytes(view: ReadView, event: ReadEvent, buffer: Seq<u8>, s: StreamId) -> Seq<
    u8,
> {
    match event {
        ReadEvent::Received { n, .. } => if view.reading == Some(s) {
            buffer.take(n as int)
        } else {
            Seq::<u8>::empty()
        },
        _ => Seq::<u8>::empty(),
    }
}

/// What is reported of a stream is what the connection gave for it, byte by byte and in order:
/// nothing is lost where the event channel is full, and nothing is repeated.
pub proof fn law_reads_keep_bytes(
    view: ReadView,
    event: ReadEvent,
    buffer: Seq<u8>,
    action: ReadAction,
    next: ReadView,
    s: StreamId,
)
    requires
        view.awaits(event, buffer.len()),
        view.on_event(event, buffer, action, next),
    ensures
        reported_bytes(next.log, s) == reported_bytes(view.log, s) + received_bytes(
            view,
            event,
            buffer,
            s,
        ),
{
    match event {
        ReadEvent::Readable(Some(t)) => {
            if next.log != view.log {
                assert(next.log.drop_last() =~= view.log);
            }
        },
        ReadEvent::Received { .. } => {
            assert(next.log.drop_last() =~= view.log);
        },
        _ => {},
    }
    assert(reported_bytes(next.log, s) =~= reported_bytes(view.log, s) + received_bytes(
        view,
        event,
        buffer,
        s,
    ));
}

/// One step of a driver's reads: what the connection answered, what the driver's buffer held, and
/// what the driver asked for next.
pub struct ReadStep {
    pub event: ReadEvent,
    pub buffer: Seq<u8>,
    pub action: ReadAction,
}

/// The driver went from each of the states to the next by the steps.
pub open spec fn read_run(views: Seq<ReadView>, steps: Seq<ReadStep>) -> bool {
    &&& views.len() == steps.len() + 1
    &&& forall|i: int| 0 <= i < steps.len() ==> #[trigger] read_step(views, steps, i)
}

/// The driver went from the state at `i` to the next by the step at `i`.
pub open spec fn read_step(views: Seq<ReadView>, steps: Seq<ReadStep>, i: int) -> bool {
    &&& views[i].awaits(steps[i].event, steps[i].buffer.len())
    &&& views[i].on_event(steps[i].event, steps[i].buffer, steps[i].action, views[i + 1])
}

/// The end of a stream is read at `i`.
pub open spec fn reads_end(views: Seq<ReadView>, steps: Seq<ReadStep>, i: int, s: StreamId) -> bool {
    views[i].reading == Some(s) && (steps[i].event matches ReadEvent::Received { fin, .. } && fin)
}

/// What the driver does at a step while the event channel has room.
pub open spec fn reads_on(before: ReadView, step: ReadStep, next: ReadView) -> bool {
    match step.event {
        ReadEvent::Start => step.action == ReadAction::Poll && next.log == before.log,
        ReadEvent::Readable(None) => step.action == ReadAction::Stop && next.log == before.log,
        ReadEvent::Readable(Some(s)) => {
            &&& step.action == ReadAction::Recv(s)
            &&& next.log == (if client_initiated(s) && !before.seen.contains(s) {
                before.log.push((before.conn_id, announcement(s)))
            } else {
                before.log
            })
        },
        ReadEvent::Received { n, fin } => {
            &&& step.action == ReadAction::Recv(before.reading->0)
            &&& next.log == before.log.push(next.log.last())
            &&& reports_data(
                next.log.last(),
                before.conn_id,
                before.reading->0,
                step.buffer.take(n as int),
                fin,
            )
        },
        ReadEvent::RecvFailed => step.action == ReadAction::Poll && next.log == before.log,
    }
}

/// The event channel had room over a whole run, so it had at each step.
proof fn lemma_room_throughout(views: Seq<ReadView>, steps: Seq<ReadStep>, i: int, j: int)
    requires
        read_run(views, steps),
        0 <= i <= j <= steps.len(),
    ensures
        views[i].misses <= views[j].misses,
    decreases j,
{
    if i < j {
        lemma_room_throughout(views, steps, i, j - 1);
        assert(read_step(views, steps, j - 1));
    }
}

/// While the event channel has room, every stream that can be read is announced where it has to
/// be and then read, every chunk is reported and the stream read on, and a read that gave nothing
/// is followed by the next stream: the driver stops only where no stream can be read.
pub proof fn law_reads_go_on_while_there_is_room(
    views: Seq<ReadView>,
    steps: Seq<ReadStep>,
    i: int,
)
    requires
        read_run(views, steps),
        views.last().misses == views[0].misses,
        0 <= i < steps.len(),
    ensures
        reads_on(views[i], steps[i], views[i + 1]),
{
    lemma_room_throughout(views, steps, 0, i);
    lemma_room_throughout(views, steps, i, i + 1);
    lemma_room_throughout(views, steps, i + 1, steps.len() as int);
    assert(read_step(views, steps, i));
    if steps[i].event is Received {
        assert(views[i + 1].log =~= views[i].log.push(views[i + 1].log.last()));
    }
}

/// While the event channel has room and no end of it is read, a stream is remembered as open
/// exactly if it was before, or if it is the peer's and could be read.
pub proof fn law_readable_streams_are_remembered(
    views: Seq<ReadView>,
    steps: Seq<ReadStep>,
    s: StreamId,
    k: int,
)
    requires
        read_run(views, steps),
        views.last().misses == views[0].misses,
        0 <= k <= steps.len(),
        forall|i: int| 0 <= i < k ==> !(#[trigger] reads_end(views, steps, i, s)),
    ensures
        views[k].seen.contains(s) <==> views[0].seen.contains(s) || client_initiated(s) && exists|
            i: int,
        |
            0 <= i < k && (#[trigger] steps[i]).event == ReadEvent::Readable(Some(s)),
    decreases k,
{
    if k > 0 {
        law_readable_streams_are_remembered(views, steps, s, k - 1);
        lemma_room_throughout(views, steps, 0, k - 1);
        lemma_room_throughout(views, steps, k - 1, k);
        lemma_room_throughout(views, steps, k, steps.len() as int);
        assert(read_step(views, steps, k - 1));
        assert(!reads_end(views, steps, k - 1, s));
        if steps[k - 1].event == ReadEvent::Readable(Some(s)) {
            assert(client_initiated(s) ==> views[k].seen.contains(s));
        }
    }
}

/// A stream whose end was read is forgotten until it can be read again.
pub proof fn law_ended_streams_are_forgotten(
    views: Seq<ReadView>,
    steps: Seq<ReadStep>,
    s: StreamId,
    i: int,
    k: int,
)
    requires
        read_run(views, steps),
        0 <= i < k <= steps.len(),
        reads_end(views, steps, i, s),
        forall|j: int|
            i < j < k ==> (#[trigger] steps[j]).event != ReadEvent::Readable(Some(s)),
    ensures
        !views[k].seen.contains(s),
    decreases k,
{
    assert(read_step(views, steps, k - 1));
    if k - 1 > i {
        law_ended_streams_are_forgotten(views, steps, s, i, k - 1);
        assert(steps[k - 1].event != ReadEvent::Readable(Some(s)));
    }
}

/// A chunk that came is reported as it came, whoever opened the stream: the last report names the
/// driver's connection and the stream that was read, holds the bytes that were received, and says
/// that the stream ends exactly if the connection said so. Nothing that was reported before
/// changes, only the stream's own end makes the driver forget it, and the driver reads on unless
/// there was no place for more.
pub proof fn law_received_chunk_is_reported(
    view: ReadView,
    n: usize,
    fin: bool,
    buffer: Seq<u8>,
    action: ReadAction,
    next: ReadView,
)
    requires
        view.awaits(ReadEvent::Received { n, fin }, buffer.len()),
        view.on_event(ReadEvent::Received { n, fin }, buffer, action, next),
    ensures
        view.reading is Some,
        n <= buffer.len(),
        next.log.len() == view.log.len() + 1,
        forall|i: int| 0 <= i < view.log.len() ==> #[trigger] next.log[i] == view.log[i],
        next.log.last().0 == view.conn_id,
        next.log.last().1 is Data,
        next.log.last().1->stream_id == view.reading->0,
        next.log.last().1->fin == fin,
        payload(next.log.last().1->data) == buffer.subrange(0, n as int),
        next.conn_id == view.conn_id,
        forall|t: StreamId| #[trigger]
            next.seen.contains(t) <==> view.seen.contains(t) && !(fin && view.reading == Some(t)),
        match action {
            ReadAction::Recv(s) => view.reading == Some(s) && next.reading == Some(s)
                && next.misses == view.misses,
            ReadAction::Stop => next.reading is None && next.misses == view.misses + 1,
            ReadAction::Poll => false,
        },
{
    assert forall|i: int| 0 <= i < view.log.len() implies #[trigger] next.log[i] == view.log[i] by {
        assert(next.log.drop_last()[i] == view.log[i]);
    }
    assert(buffer.take(n as int) =~= buffer.subrange(0, n as int));
}

/// A stream that can be read is announced before it is read exactly if its lowest bit says that
/// the peer opened it and it is not remembered as open; the next bit says which way it goes. The
/// driver then reads it, and stops only where it asked for a place and there was none.
pub proof fn law_readable_stream_is_announced(
    view: ReadView,
    s: StreamId,
    buffer: Seq<u8>,
    action: ReadAction,
    next: ReadView,
)
    requires
        view.awaits(ReadEvent::Readable(Some(s)), buffer.len()),
        view.on_event(ReadEvent::Readable(Some(s)), buffer, action, next),
    ensures
        next.conn_id == view.conn_id,
        next.log == view.log || s & 1 == 0 && !view.seen.contains(s) && next.log == view.log.push(
            (
                view.conn_id,
                if s & 2 == 0 {
                    DriverEvent::NewBidi(s)
                } else {
                    DriverEvent::NewUni(s)
                },
            ),
        ),
        forall|t: StreamId| #[trigger]
            next.seen.contains(t) <==> view.seen.contains(t) || t == s && next.log.len()
                > view.log.len(),
        match action {
            ReadAction::Recv(t) => {
                &&& t == s
                &&& next.reading == Some(s)
                &&& next.misses == view.misses
                &&& s & 1 == 0 && !view.seen.contains(s) <==> next.log.len() > view.log.len()
            },
            ReadAction::Stop => {
                &&& next.reading is None
                &&& next.misses == view.misses + 1
                &&& !(s & 1 == 0 && !view.seen.contains(s)) ==> next.log == view.log
            },
            ReadAction::Poll => false,
        },
{
    assert((s & 1 == 0) == (s % 2 == 0)) by (bit_vector);
    assert((s & 2 == 0) == ((s / 2) % 2 == 0)) by (bit_vector);
}

/// Where there is nothing to report, nothing changes but that a read is over: the driver asks for
/// the next stream at the start and after a read that gave nothing, and stops where no stream can
/// be read.
pub proof fn law_other_answers_report_nothing(
    view: ReadView,
    event: ReadEvent,
    buffer: Seq<u8>,
    action: ReadAction,
    next: ReadView,
)
    requires
        event is Start || event is RecvFailed || event == ReadEvent::Readable(None),
        view.awaits(event, buffer.len()),
        view.on_event(event, buffer, action, next),
    ensures
        action == (if event == ReadEvent::Readable(None) {
            ReadAction::Stop
        } else {
            ReadAction::Poll
        }),
        next.log == view.log,
        next.seen == view.seen,
        next.conn_id == view.conn_id,
        next.misses == view.misses,
        next.reading is None,
{
}

/// The driver takes every answer that the connection can give: about streams while no read is
/// under way, and about a read, with as much as the buffer holds, while one is.
pub proof fn law_reads_take_every_answer(view: ReadView, s: Option<StreamId>, n: usize, fin: bool, len: nat)
    ensures
        view.awaits(ReadEvent::Start, len) <==> view.reading is None,
        view.awaits(ReadEvent::Readable(s), len) <==> view.reading is None,
        view.awaits(ReadEvent::Received { n, fin }, len) <==> view.reading is Some && n <= len,
        view.awaits(ReadEvent::RecvFailed, len) <==> view.reading is Some,
{
}

/// The state of a driver's reads is what the driver holds and what has gone through its end of the
/// event channel.
pub proof fn law_read_view_shows_driver(driver: StreamQuicDriver)
    ensures
        driver.read_view().conn_id == driver.conn_id,
        driver.read_view().seen == driver.seen_streams@,
        match driver.reading {
            Some(reading) => {
                &&& driver.read_view().reading == Some(reading.stream_id)
                &&& driver.read_view().log == event_permit(reading.permit).log
                &&& driver.read_view().misses == event_permit(reading.permit).misses
            },
            None => {
                &&& driver.read_view().reading is None
                &&& driver.event_tx matches Some(tx) ==> driver.read_view().log == event_tx(tx).log
                    && driver.read_view().misses == event_tx(tx).misses
            },
        },
{
}

/// What waits to be written, the channels and the handshake are untouched by reads.
pub proof fn law_reads_change_nothing_else(driver: StreamQuicDriver, before: StreamQuicDriver)
    requires
        driver.same_but_reads(&before),
    ensures
        driver == (StreamQuicDriver {
            event_tx: driver.event_tx,
            reading: driver.reading,
            seen_streams: driver.seen_streams,
            ..before
        }),
{
}

} // verus!
