//! What a call does, and how one call bears on the next, told of the calls themselves.

use crate::channel::{
    close_rx, close_tx, event_permit, event_rx, event_tx, priority_rx, wakes, write_rx, write_tx,
    Port, SendFailure,
};
use crate::conn::{BindPlan, QuicheServerSocket, SocketAddress};
use crate::payload::payload;
use crate::php::{PhpClass, PhpException, PhpValue};
use crate::quiche::conn::{
    CloseNotice, ConnState, DriverEvent, PhpStreamCallbacks, StreamId, StreamPriority, StreamReader,
    StreamSlots, StreamWriter,
};
use crate::quiche::data::{ReadHalf, StreamDataEvent, WriteHalf};
use crate::quiche::driver::{
    ReadAction, ReadEvent, SendOutcome, StreamQuicDriver, WriteAction, WriteEvent,
};
use crate::quiche::error::{BindError, BindErrorKind, QuicheError};
use crate::quiche::read_order::{
    law_other_answers_report_nothing, law_readable_stream_is_announced,
    law_received_chunk_is_reported,
};
use crate::quiche::runtime::{parse_setting, worker_thread_count};
use crate::quiche::service::{
    law_accepted_connection, law_data_is_handed_over, law_end_marks_the_connection, law_end_steps, law_late_report_is_dropped,
    law_new_stream_is_shown, law_shutdown_and_retire_steps, law_shutdown_lists_who_is_served,
};
use crate::quiche::socket::{
    QuicheServerSocketImpl, ServerAction, ServerEvent, ServerInbox, Telling,
};
use crate::quiche::write_order::{
    chunks_for, law_first_chunk_is_tried, law_message_joins_its_queue, law_outcome_settles_its_stream,
    law_received_messages_wait, queue_of,
};
use crate::quiche::stream::{
    AcceptedRemoteStream, BiDirectionalQuicheStream, ReadableQuicheStream, WriteableQuicheStream,
};
use crate::stream::{
    finish_write, BidiStream, IncomingBidiStream, IncomingUniStream, UniStream,
};
use crate::text::{
    append_integer, append_number, law_sign_is_written_first, lemma_digits_of_number, number_text,
    numeral_value, parse_number,
};
use bytes::Bytes;
use tokio::sync::mpsc;
use vstd::prelude::*;

verus! {

broadcast use vstd::std_specs::hash::group_hash_axioms;

/// The driver's end of the event channel, with a reserved place or without.
pub open spec fn event_end(driver: StreamQuicDriver) -> Port<(u64, DriverEvent)> {
    match driver.reading {
        Some(reading) => event_permit(reading.permit),
        None => event_tx(driver.event_tx->0),
    }
}

/// A chunk that the driver is told of goes to the server as it is: its stream, whoever opened it,
/// the bytes in the driver's buffer, and whether the stream ends there.
pub proof fn law_call_reports_chunk(
    driver: &mut StreamQuicDriver,
    n: usize,
    fin: bool,
    action: ReadAction,
)
    requires
        old(driver).reading is Some,
        n <= old(driver).io_worker_buf@.len(),
        call_ensures(
            StreamQuicDriver::process_reads,
            (driver, ReadEvent::Received { n, fin }),
            action,
        ),
    ensures
        ({
            let was = event_end(*old(driver)).log;
            let now = event_end(*final(driver)).log;
            &&& now.len() == was.len() + 1
            &&& forall|i: int| 0 <= i < was.len() ==> #[trigger] now[i] == was[i]
            &&& now.last().0 == old(driver).conn_id
            &&& now.last().1 matches DriverEvent::Data { stream_id, data, fin: f }
            &&& stream_id == old(driver).reading->0.stream_id
            &&& payload(data) == old(driver).io_worker_buf@.subrange(0, n as int)
            &&& f == fin
        }),
        forall|t: StreamId| #[trigger]
            final(driver).seen_streams@.contains(t) <==> old(driver).seen_streams@.contains(t) && !(
            fin && t == old(driver).reading->0.stream_id),
        action == ReadAction::Recv(old(driver).reading->0.stream_id) || action == ReadAction::Stop
            && event_end(*final(driver)).misses == event_end(*old(driver)).misses + 1,
        final(driver).pending_writes == old(driver).pending_writes,
        final(driver).conn_close_tx == old(driver).conn_close_tx,
        final(driver).established == old(driver).established,
        final(driver).io_worker_buf == old(driver).io_worker_buf,
{
    law_received_chunk_is_reported(
        old(driver).read_view(),
        n,
        fin,
        old(driver).io_worker_buf@,
        action,
        final(driver).read_view(),
    );
}

/// A stream that can be read is announced to the server first where the peer opened it and the
/// server does not know it yet, and then read; only a channel without a place stops that.
pub proof fn law_call_announces_stream(
    driver: &mut StreamQuicDriver,
    s: StreamId,
    action: ReadAction,
)
    requires
        old(driver).reading is None,
        call_ensures(
            StreamQuicDriver::process_reads,
            (driver, ReadEvent::Readable(Some(s))),
            action,
        ),
    ensures
        ({
            let was = event_end(*old(driver)).log;
            let now = event_end(*final(driver)).log;
            let new = s & 1 == 0 && !old(driver).seen_streams@.contains(s);
            &&& now == was || new && now == was.push(
                (
                    old(driver).conn_id,
                    if s & 2 == 0 {
                        DriverEvent::NewBidi(s)
                    } else {
                        DriverEvent::NewUni(s)
                    },
                ),
            )
            &&& action == ReadAction::Recv(s) ==> (new <==> now.len() > was.len())
            &&& action == ReadAction::Recv(s) || action == ReadAction::Stop && event_end(
                *final(driver),
            ).misses == event_end(*old(driver)).misses + 1
            &&& forall|t: StreamId| #[trigger]
                final(driver).seen_streams@.contains(t) <==> old(driver).seen_streams@.contains(t)
                    || t == s && now.len() > was.len()
        }),
        final(driver).pending_writes == old(driver).pending_writes,
{
    law_readable_stream_is_announced(
        old(driver).read_view(),
        s,
        old(driver).io_worker_buf@,
        action,
        final(driver).read_view(),
    );
}

/// A read that gave nothing is over: nothing is reported, and the next stream is asked for. Where
/// no stream can be read, the driver stops.
pub proof fn law_call_reports_nothing(
    driver: &mut StreamQuicDriver,
    event: ReadEvent,
    action: ReadAction,
)
    requires
        event == ReadEvent::RecvFailed && old(driver).reading is Some || (event == ReadEvent::Start
            || event == ReadEvent::Readable(None)) && old(driver).reading is None,
        call_ensures(StreamQuicDriver::process_reads, (driver, event), action),
    ensures
        action == (if event == ReadEvent::Readable(None) {
            ReadAction::Stop
        } else {
            ReadAction::Poll
        }),
        event_end(*final(driver)).log == event_end(*old(driver)).log,
        final(driver).seen_streams@ == old(driver).seen_streams@,
        final(driver).reading is None,
{
    law_other_answers_report_nothing(
        old(driver).read_view(),
        event,
        old(driver).io_worker_buf@,
        action,
        final(driver).read_view(),
    );
}

/// An outbound message joins its stream's queue whole, as the last chunk, with its end mark.
pub proof fn law_call_queues_message(driver: &mut StreamQuicDriver, message: StreamWriter)
    requires
        call_ensures(StreamQuicDriver::enqueue_write, (driver, message), ()),
    ensures
        ({
            let s = message.0;
            let was = old(driver).write_view().pending;
            let now = final(driver).write_view().pending;
            let len = if was.contains_key(s) {
                was[s].len()
            } else {
                0
            };
            &&& now.contains_key(s)
            &&& now[s].len() == len + 1
            &&& forall|i: int| 0 <= i < len ==> #[trigger] now[s][i] == was[s][i]
            &&& now[s].last().1 == message.2
            &&& now[s].last().0 == (match message.1 {
                Some(data) => payload(data),
                None => Seq::<u8>::empty(),
            })
            &&& forall|t: StreamId|
                t != s ==> (#[trigger] now.contains_key(t) <==> was.contains_key(t))
            &&& forall|t: StreamId| t != s && was.contains_key(t) ==> #[trigger] now[t] == was[t]
        }),
{
    law_message_joins_its_queue(old(driver).write_view().pending, message, message.0);
    assert forall|t: StreamId| t != message.0 implies (
    #[trigger] final(driver).write_view().pending.contains_key(t)
        <==> old(driver).write_view().pending.contains_key(t)) by {
        law_message_joins_its_queue(old(driver).write_view().pending, message, t);
    }
}

/// A chunk that was taken whole, or failed, leaves its queue alone, and what follows it is tried
/// next, also where that is an empty chunk that only ends the stream.
pub proof fn law_call_tries_the_next_chunk(
    driver: &mut StreamQuicDriver,
    outcome: SendOutcome,
    action: WriteAction,
)
    requires
        old(driver).wf(),
        old(driver).write_view().expects(outcome),
        call_ensures(
            StreamQuicDriver::process_writes,
            (driver, WriteEvent::Sent(outcome)),
            action,
        ),
    ensures
        ({
            let s = old(driver).flush@.last();
            let queue = old(driver).write_view().pending[s];
            let now = final(driver).write_view().pending;
            let done = outcome is Failed || (outcome matches SendOutcome::Accepted(n) && n
                == queue[0].0.len());
            &&& done && queue.len() > 1 ==> {
                &&& now[s].len() == queue.len() - 1
                &&& forall|i: int| 0 <= i < queue.len() - 1 ==> #[trigger] now[s][i] == queue[i + 1]
                &&& action matches WriteAction::Send { stream_id, data, fin }
                &&& stream_id == s
                &&& payload(data) == queue[1].0
                &&& fin == queue[1].1
            }
            &&& done && queue.len() == 1 ==> !now.contains_key(s)
            &&& !done ==> {
                &&& now.contains_key(s)
                &&& now[s].len() == queue.len()
                &&& now[s][0].1 == queue[0].1
                &&& now[s][0].0 == (match outcome {
                    SendOutcome::Accepted(n) => queue[0].0.subrange(
                        n as int,
                        queue[0].0.len() as int,
                    ),
                    _ => queue[0].0,
                })
                &&& forall|i: int| 0 < i < queue.len() ==> #[trigger] now[s][i] == queue[i]
            }
            &&& !(done && queue.len() > 1) ==> (action is Stop <==> old(driver).flush@.len() == 1)
        }),
        final(driver).seen_streams == old(driver).seen_streams,
        final(driver).event_tx == old(driver).event_tx,
{
    law_outcome_settles_its_stream(old(driver).write_view(), outcome, old(driver).flush@.last());
    law_first_chunk_is_tried(final(driver).write_view(), action);
    let s = old(driver).flush@.last();
    let view = old(driver).write_view();
    assert(view.pending.contains_key(view.flush[view.flush.len() - 1]));
    let next = final(driver).write_view();
    if next.flush == view.flush && next.pending.contains_key(s) && next.pending[s].len() > 0 {
        assert(next.flush[next.flush.len() - 1] == s);
    }
}

/// A pass begins with a priority change, if one was received; else with what waits, behind which
/// all that came meanwhile has queued up.
pub proof fn law_call_begins_a_pass(
    driver: &mut StreamQuicDriver,
    received: Option<StreamPriority>,
    action: WriteAction,
    s: StreamId,
)
    requires
        call_ensures(StreamQuicDriver::begin_writes, (driver, received), action),
    ensures
        received matches Some((t, urgency, incremental)) ==> action == (WriteAction::SetPriority {
            stream_id: t,
            urgency,
            incremental,
        }) && *final(driver) == *old(driver),
        received is None ==> {
            &&& final(driver).flush@.to_set() == final(driver).write_view().pending.dom()
            &&& action is Stop <==> final(driver).flush@.len() == 0
            &&& action matches WriteAction::Send { stream_id, data, fin } ==> stream_id == final(driver).flush@.last() && payload(data) == final(driver).write_view().pending[stream_id][0].0
                && fin == final(driver).write_view().pending[stream_id][0].1
            &&& write_rx(final(driver).stream_event_recv).misses == write_rx(
                old(driver).stream_event_recv,
            ).misses + 1 || write_rx(final(driver).stream_event_recv).log.len() == write_rx(
                old(driver).stream_event_recv,
            ).log.len() + u64::MAX
        },
{
    if received is None {
        law_received_messages_wait(*final(driver), *old(driver), s);
        law_first_chunk_is_tried(final(driver).write_view(), action);
    }
}

/// The server is told who ended the connection: the peer, if it sent an error or timed out.
pub proof fn law_call_signals_the_end(
    driver: &mut StreamQuicDriver,
    peer_error: bool,
    timed_out: bool,
    r: Result<(), SendFailure>,
)
    requires
        call_ensures(StreamQuicDriver::on_conn_close, (driver, peer_error, timed_out), r),
    ensures
        ({
            let was = close_tx(old(driver).conn_close_tx);
            let now = close_tx(final(driver).conn_close_tx);
            let signal = (old(driver).conn_id, peer_error || timed_out);
            match r {
                Ok(()) => now.log == was.log.push(signal) && now.refused == was.refused,
                Err(failure) => now.log == was.log && now.refused == was.refused.push(
                    (signal, failure),
                ),
            }
        }),
        final(driver).event_tx == old(driver).event_tx,
        final(driver).pending_writes == old(driver).pending_writes,
{
}

/// What has gone through a sending end after a write of `content` to a stream that the channel
/// answered with `r`, and what the script gets for it.
pub open spec fn written(
    was: Port<StreamWriter>,
    now: Port<StreamWriter>,
    stream_id: StreamId,
    content: Seq<u8>,
    fin: bool,
    what: Seq<char>,
    r: Result<(), PhpException>,
) -> bool {
    match r {
        Ok(()) => {
            &&& now.log.len() == was.log.len() + 1
            &&& forall|i: int| 0 <= i < was.log.len() ==> #[trigger] now.log[i] == was.log[i]
            &&& now.refused == was.refused
            &&& now.log.last().0 == stream_id
            &&& now.log.last().1 matches Some(data) && payload(data) == content
            &&& now.log.last().2 == fin
        },
        Err(e) => {
            &&& now.log == was.log
            &&& now.refused.len() == was.refused.len() + 1
            &&& now.refused.last().0.0 == stream_id
            &&& now.refused.last().0.1 matches Some(data) && payload(data) == content
            &&& now.refused.last().0.2 == fin
            &&& e.class == PhpClass::Exception
            &&& e.message@ == what + " failed: "@ + (match now.refused.last().1 {
                SendFailure::Full => "no available capacity"@,
                SendFailure::Closed => "channel closed"@,
            })
        },
    }
}

/// Whatever a script writes to a stream that the peer opened, all of it goes to the driver, for
/// that stream and with the end mark given, and the driver is woken; to close the stream is to
/// write nothing and end it.
pub proof fn law_call_writes_incoming(
    stream: &mut IncomingBidiStream,
    data: &[u8],
    fin: bool,
    r: Result<(), PhpException>,
)
    ensures
        call_ensures(IncomingBidiStream::write, (stream, data, fin), r) ==> {
            &&& written(
                write_tx(old(stream).write_tx),
                write_tx(final(stream).write_tx),
                old(stream).stream_id,
                data@,
                fin,
                "write"@,
                r,
            )
            &&& wakes(*final(stream).write_notify) == wakes(*old(stream).write_notify) + (if r is Ok {
                1int
            } else {
                0
            })
            &&& final(stream).stream_id == old(stream).stream_id
            &&& final(stream).number == old(stream).number
        },
        call_ensures(IncomingBidiStream::close, (stream,), r) ==> {
            &&& written(
                write_tx(old(stream).write_tx),
                write_tx(final(stream).write_tx),
                old(stream).stream_id,
                Seq::<u8>::empty(),
                true,
                "close"@,
                r,
            )
            &&& wakes(*final(stream).write_notify) == wakes(*old(stream).write_notify) + (if r is Ok {
                1int
            } else {
                0
            })
        },
{
}

/// The same of a bidirectional stream that the server opened.
pub proof fn law_call_writes_bidi(
    stream: &mut BidiStream,
    data: &[u8],
    fin: bool,
    r: Result<(), PhpException>,
)
    ensures
        call_ensures(BidiStream::write, (stream, data, fin), r) ==> {
            &&& written(
                write_tx(old(stream).write_tx),
                write_tx(final(stream).write_tx),
                old(stream).stream_id,
                data@,
                fin,
                "write"@,
                r,
            )
            &&& wakes(*final(stream).write_notify) == wakes(*old(stream).write_notify) + (if r is Ok {
                1int
            } else {
                0
            })
            &&& final(stream).stream_id == old(stream).stream_id
            &&& final(stream).number == old(stream).number
        },
        call_ensures(BidiStream::close, (stream,), r) ==> {
            &&& written(
                write_tx(old(stream).write_tx),
                write_tx(final(stream).write_tx),
                old(stream).stream_id,
                Seq::<u8>::empty(),
                true,
                "close"@,
                r,
            )
            &&& wakes(*final(stream).write_notify) == wakes(*old(stream).write_notify) + (if r is Ok {
                1int
            } else {
                0
            })
        },
{
}

/// The same of a unidirectional stream that the server opened.
pub proof fn law_call_writes_uni(
    stream: &mut UniStream,
    data: &[u8],
    fin: bool,
    r: Result<(), PhpException>,
)
    ensures
        call_ensures(UniStream::write, (stream, data, fin), r) ==> {
            &&& written(
                write_tx(old(stream).write_tx),
                write_tx(final(stream).write_tx),
                old(stream).stream_id,
                data@,
                fin,
                "write"@,
                r,
            )
            &&& wakes(*final(stream).write_notify) == wakes(*old(stream).write_notify) + (if r is Ok {
                1int
            } else {
                0
            })
            &&& final(stream).stream_id == old(stream).stream_id
            &&& final(stream).number == old(stream).number
        },
        call_ensures(UniStream::close, (stream,), r) ==> {
            &&& written(
                write_tx(old(stream).write_tx),
                write_tx(final(stream).write_tx),
                old(stream).stream_id,
                Seq::<u8>::empty(),
                true,
                "close"@,
                r,
            )
            &&& wakes(*final(stream).write_notify) == wakes(*old(stream).write_notify) + (if r is Ok {
                1int
            } else {
                0
            })
        },
{
}

/// A callback that can be called is in its slot after it was registered, beside what the other
/// slot holds; one that cannot is refused, and nothing changes. Other streams' slots stay.
pub proof fn law_call_registers_callback<C>(
    callbacks: &mut PhpStreamCallbacks<C>,
    s: StreamId,
    number: u64,
    f: PhpValue<C>,
    r: Result<(), PhpException>,
    for_data: bool,
)
    requires
        for_data ==> call_ensures(
            PhpStreamCallbacks::<C>::install_on_data,
            (callbacks, s, number, f),
            r,
        ),
        !for_data ==> call_ensures(
            PhpStreamCallbacks::<C>::install_on_close,
            (callbacks, s, number, f),
            r,
        ),
    ensures
        r is Ok <==> f.callable,
        r matches Err(e) ==> e.class == PhpClass::Exception && e.message@ == (if for_data {
            "setOnData"@
        } else {
            "setOnClose"@
        }) + " expects a callable"@,
        ({
            let was = old(callbacks).slots@;
            let now = final(callbacks).slots@;
            let counts = f.callable && was.contains_key(s) && was[s].number == number;
            &&& !counts ==> now == was
            &&& counts ==> now.contains_key(s) && now[s].number == number
            &&& counts && for_data ==> now[s].on_data == Some(f.value) && now[s].on_close
                == was[s].on_close
            &&& counts && !for_data ==> now[s].on_close == Some(f.value) && now[s].on_data
                == was[s].on_data
            &&& forall|t: StreamId|
                t != s ==> (#[trigger] now.contains_key(t) <==> was.contains_key(t))
            &&& forall|t: StreamId| t != s && was.contains_key(t) ==> #[trigger] now[t] == was[t]
        }),
        final(callbacks).next_number == old(callbacks).next_number,
{
}

/// A callback that was registered for the end of a stream is the one that its end hands out, with
/// the flag of that end, whether or not there is one for data.
pub proof fn law_call_hands_out_the_registered_callback<C>(
    callbacks: &mut PhpStreamCallbacks<C>,
    s: StreamId,
    number: u64,
    f: PhpValue<C>,
    registered: Result<(), PhpException>,
    later: &mut PhpStreamCallbacks<C>,
    peer_closed: bool,
    r: Option<CloseNotice<C>>,
)
    requires
        call_ensures(
            PhpStreamCallbacks::<C>::install_on_close,
            (callbacks, s, number, f),
            registered,
        ),
        registered is Ok,
        old(callbacks).slots@.contains_key(s),
        old(callbacks).slots@[s].number == number,
        old(later).slots@ == final(callbacks).slots@,
        call_ensures(PhpStreamCallbacks::<C>::finish, (later, s, peer_closed), r),
    ensures
        r matches Some(n) && n.on_close == Some(f.value) && n.peer_closed == peer_closed && n.number
            == number && n.stream_id == s,
        !final(later).slots@.contains_key(s),
{
}

/// The end of a stream takes its slots away, and hands out what was in them; a stream without
/// slots hands out nothing, and nobody else's slots change.
pub proof fn law_call_ends_stream<C>(
    callbacks: &mut PhpStreamCallbacks<C>,
    s: StreamId,
    peer_closed: bool,
    r: Option<CloseNotice<C>>,
)
    requires
        call_ensures(PhpStreamCallbacks::<C>::finish, (callbacks, s, peer_closed), r),
    ensures
        r is Some <==> old(callbacks).slots@.contains_key(s),
        r matches Some(n) ==> n.on_close == old(callbacks).slots@[s].on_close && n.number
            == old(callbacks).slots@[s].number && n.stream_id == s && n.peer_closed == peer_closed,
        !final(callbacks).slots@.contains_key(s),
        forall|t: StreamId|
            t != s ==> (#[trigger] final(callbacks).slots@.contains_key(t)
                <==> old(callbacks).slots@.contains_key(t)),
        forall|t: StreamId|
            t != s && old(callbacks).slots@.contains_key(t) ==> #[trigger] final(callbacks).slots@[t]
                == old(callbacks).slots@[t],
        final(callbacks).next_number == old(callbacks).next_number,
{
}

/// New slots are empty, and their number is the one that is told and that no later slots get until
/// the numbers run out.
pub proof fn law_call_gives_slots<C>(
    callbacks: &mut PhpStreamCallbacks<C>,
    s: StreamId,
    number: u64,
)
    requires
        call_ensures(PhpStreamCallbacks::<C>::register, (callbacks, s), number),
    ensures
        number == old(callbacks).next_number,
        final(callbacks).next_number as int == (number + 1) % 0x1_0000_0000_0000_0000,
        final(callbacks).slots@.contains_key(s),
        final(callbacks).slots@[s].number == number,
        final(callbacks).slots@[s].on_data is None,
        final(callbacks).slots@[s].on_close is None,
        forall|t: StreamId|
            t != s && old(callbacks).slots@.contains_key(t) ==> #[trigger] final(callbacks).slots@[t]
                == old(callbacks).slots@[t],
        forall|t: StreamId|
            t != s ==> (#[trigger] final(callbacks).slots@.contains_key(t)
                <==> old(callbacks).slots@.contains_key(t)),
{
}

/// Every data event of a connection that is served is handed over: whatever its length, with its
/// own data and end mark, to what is registered for its stream's data.
pub proof fn law_call_hands_over_data<C: Clone>(
    server: &mut QuicheServerSocketImpl<C>,
    c: u64,
    s: StreamId,
    data: Bytes,
    fin: bool,
    action: ServerAction<C>,
)
    requires
        old(server).connections@.contains_key(c),
        old(server).connections@[c].ending is None,
        call_ensures(
            QuicheServerSocketImpl::<C>::dispatch_driver_event,
            (server, c, DriverEvent::Data { stream_id: s, data, fin }),
            action,
        ),
    ensures
        action matches ServerAction::Deliver { callback, conn_id, stream_id, data: d, fin: f } && {
            let slots = old(server).connections@[c].php_stream_callbacks.slots@;
            &&& conn_id == c
            &&& stream_id == s
            &&& d == data
            &&& f == fin
            &&& match if slots.contains_key(s) {
                slots[s].on_data
            } else {
                None
            } {
                Some(g) => callback matches Some(h) && cloned(g, h),
                None => callback is None,
            }
        },
        final(server).server_view() == old(server).server_view(),
{
    law_data_is_handed_over(
        old(server).server_view(),
        c,
        s,
        data,
        fin,
        old(server).stream_callback,
        action,
        final(server).server_view(),
    );
}

/// Every stream that the peer opens on a connection that is served is shown, as what it is.
pub proof fn law_call_shows_stream<C: Clone>(
    server: &mut QuicheServerSocketImpl<C>,
    c: u64,
    s: StreamId,
    bidi: bool,
    action: ServerAction<C>,
)
    requires
        old(server).connections@.contains_key(c),
        old(server).connections@[c].ending is None,
        call_ensures(
            QuicheServerSocketImpl::<C>::dispatch_driver_event,
            (
                server,
                c,
                if bidi {
                    DriverEvent::NewBidi(s)
                } else {
                    DriverEvent::NewUni(s)
                },
            ),
            action,
        ),
    ensures
        ({
            let state = old(server).connections@[c];
            if bidi {
                &&& action matches ServerAction::ShowBidi { callback, bidi: b }
                &&& b.conn_id == c
                &&& b.stream_id == s
                &&& b.peer_addr == state.peer_addr
                &&& b.write_tx == state.open_handle.write_tx
                &&& b.write_notify == state.open_handle.write_notify
                &&& b.conn_handle == state.open_handle
                &&& b.number == state.php_stream_callbacks.next_number
                &&& match old(server).stream_callback {
                    Some(g) => callback matches Some(h) && cloned(g, h),
                    None => callback is None,
                }
            } else {
                &&& action matches ServerAction::ShowUni { callback, uni: u }
                &&& u.conn_id == c
                &&& u.stream_id == s
                &&& u.peer_addr == state.peer_addr
                &&& u.conn_handle == state.open_handle
                &&& u.number == state.php_stream_callbacks.next_number
                &&& match old(server).stream_callback {
                    Some(g) => callback matches Some(h) && cloned(g, h),
                    None => callback is None,
                }
            }
        }),
        final(server).server_view().has_stream(c, s),
        final(server).server_view().conns[c].slots[s].number == old(server).connections@[c].php_stream_callbacks.next_number,
{
    law_new_stream_is_shown(
        old(server).server_view(),
        c,
        s,
        bidi,
        old(server).stream_callback,
        action,
        final(server).server_view(),
    );
}

/// What comes for a connection that is not there or has ended is dropped.
pub proof fn law_call_drops_late_event<C: Clone>(
    server: &mut QuicheServerSocketImpl<C>,
    c: u64,
    ev: DriverEvent,
    action: ServerAction<C>,
)
    requires
        !old(server).connections@.contains_key(c) || old(server).connections@[c].ending is Some,
        call_ensures(
            QuicheServerSocketImpl::<C>::dispatch_driver_event,
            (server, c, ev),
            action,
        ),
    ensures
        action is Wait,
        final(server).server_view() == old(server).server_view(),
{
    law_late_report_is_dropped(
        old(server).server_view(),
        c,
        ev,
        old(server).stream_callback,
        action,
        final(server).server_view(),
    );
}

/// The last data of a stream of a connection that is served ends it: its callback for that is
/// handed out as the peer's doing, and its slots are gone. Other data ends nothing.
pub proof fn law_call_finishes_data<C: Clone>(
    server: &mut QuicheServerSocketImpl<C>,
    c: u64,
    s: StreamId,
    fin: bool,
    r: Option<CloseNotice<C>>,
)
    requires
        call_ensures(QuicheServerSocketImpl::<C>::finish_data, (server, c, s, fin), r),
    ensures
        ({
            let state = old(server).connections@[c];
            let counts = fin && old(server).connections@.contains_key(c) && state.ending is None;
            &&& r is Some <==> counts && state.php_stream_callbacks.slots@.contains_key(s)
            &&& r matches Some(n) ==> {
                &&& n.stream_id == s
                &&& n.peer_closed
                &&& n.on_close == state.php_stream_callbacks.slots@[s].on_close
                &&& n.number == state.php_stream_callbacks.slots@[s].number
            }
            &&& counts ==> !final(server).server_view().has_stream(c, s)
            &&& !counts ==> final(server).server_view() == old(server).server_view()
        }),
{
    law_end_steps(
        old(server).server_view(),
        c,
        s,
        c,
        s,
        crate::quiche::lifecycle::Step::<C>::End(c, s),
    );
}

/// Of a connection that has ended, one stream after the other is told, with the callback that it
/// has at its turn and the flag of the connection's end; a record goes once its streams are told,
/// and it is done only when no connection that has ended is left.
pub proof fn law_call_tells_one_stream<C: Clone>(
    server: &mut QuicheServerSocketImpl<C>,
    r: Telling<C>,
)
    requires
        old(server).wf(),
        call_ensures(QuicheServerSocketImpl::<C>::next_notice, (server,), r),
    ensures
        r is Done <==> old(server).closing@.len() == 0,
        r matches Telling::Tell(c, n) ==> {
            let state = old(server).connections@[c];
            &&& old(server).connections@.contains_key(c)
            &&& state.ending == Some(n.peer_closed)
            &&& state.php_stream_callbacks.slots@.contains_key(n.stream_id)
            &&& n.on_close == state.php_stream_callbacks.slots@[n.stream_id].on_close
            &&& n.number == state.php_stream_callbacks.slots@[n.stream_id].number
            &&& !final(server).server_view().has_stream(c, n.stream_id)
            &&& forall|t: StreamId|
                t != n.stream_id && old(server).server_view().has_stream(c, t)
                    ==> #[trigger] final(server).server_view().has_stream(c, t)
        },
        r matches Telling::Retired(c) ==> {
            &&& final(server).closing@.len() == old(server).closing@.len() - 1
            &&& old(server).connections@.contains_key(c) && old(server).connections@[c].ending is Some
                ==> forall|t: StreamId|
                !(#[trigger] old(server).server_view().has_stream(c, t))
        },
        r is Done ==> forall|c: u64|
            #![trigger old(server).connections@[c]]
            old(server).connections@.contains_key(c) ==> old(server).connections@[c].ending is None,
{
    if let Telling::Tell(c, n) = r {
        let step = crate::quiche::lifecycle::Step::<C>::Tell(c, n.stream_id);
        law_end_steps(old(server).server_view(), c, n.stream_id, c, n.stream_id, step);
        assert forall|t: StreamId|
            t != n.stream_id && old(server).server_view().has_stream(
                c,
                t,
            ) implies #[trigger] final(server).server_view().has_stream(c, t) by {
            law_end_steps(old(server).server_view(), c, n.stream_id, c, t, step);
        }
    }
    if let Telling::Retired(c) = r {
        law_shutdown_and_retire_steps(old(server).server_view(), c, c);
    }
    if r is Done {
        assert forall|c: u64|
            #![trigger old(server).connections@[c]]
            old(server).connections@.contains_key(c) implies old(server).connections@[c].ending is None by {
            assert(old(server).server_view().conns.contains_key(c));
        }
    }
}

/// A close signal ends its connection with the signal's flag, once.
pub proof fn law_call_takes_close_signal<C: Clone>(
    server: &mut QuicheServerSocketImpl<C>,
    c: u64,
    flag: bool,
    has_event_fd: bool,
    action: ServerAction<C>,
)
    requires
        call_ensures(
            QuicheServerSocketImpl::<C>::tick,
            (server, ServerEvent::ConnClosed(c, flag), has_event_fd),
            action,
        ),
    ensures
        old(server).connections@.contains_key(c) && old(server).connections@[c].ending is None
            ==> action is Close && final(server).server_view().conns[c].ending == Some(flag)
            && final(server).server_view().conns[c].slots
            == old(server).server_view().conns[c].slots && final(server).closing@ == old(server).closing@.push(c),
        !old(server).connections@.contains_key(c) || old(server).connections@[c].ending is Some
            ==> action is Wait && final(server).server_view() == old(server).server_view()
            && final(server).closing@ == old(server).closing@,
{
    law_end_marks_the_connection(
        old(server).server_view(),
        c,
        flag,
        action,
        final(server).server_view(),
    );
}

/// A shutdown ends every connection that has not ended, as the server's doing, lists each of them
/// once, and stops the server from accepting any; their streams keep their slots to be told.
pub proof fn law_call_shuts_down<C: Clone>(server: &mut QuicheServerSocketImpl<C>, c: u64)
    requires
        call_ensures(QuicheServerSocketImpl::<C>::close, (server,), ()),
    ensures
        !final(server).listening,
        final(server).server_view().conns.contains_key(c) <==> old(server).connections@.contains_key(
            c,
        ),
        old(server).connections@.contains_key(c) ==> {
            let was = old(server).connections@[c];
            let now = final(server).server_view().conns[c];
            &&& now.slots == was.php_stream_callbacks.slots@
            &&& now.ending == Some(
                match was.ending {
                    Some(flag) => flag,
                    None => false,
                },
            )
            &&& was.ending is None ==> exists|i: int|
                old(server).closing@.len() <= i < final(server).closing@.len()
                    && #[trigger] final(server).closing@[i] == c
        },
        final(server).closing@.len() >= old(server).closing@.len(),
{
    law_shutdown_and_retire_steps(old(server).server_view(), c, c);
    law_shutdown_lists_who_is_served(
        old(server).server_view(),
        old(server).closing@,
        final(server).closing@,
        c,
    );
}

/// What a driver reported is taken before the close signals: one of them comes only where no
/// report waited, and nothing only where neither did.
pub proof fn law_call_takes_reports_first(inbox: &mut ServerInbox, r: Option<ServerEvent>)
    requires
        call_ensures(ServerInbox::next_event, (inbox,), r),
    ensures
        ({
            let events = event_rx(old(inbox).server_event_rx);
            let closes = close_rx(old(inbox).conn_close_rx);
            let events_now = event_rx(final(inbox).server_event_rx);
            let closes_now = close_rx(final(inbox).conn_close_rx);
            match r {
                Some(ServerEvent::Driver(c, ev)) => events_now.log == events.log.push((c, ev))
                    && closes_now == closes,
                Some(ServerEvent::ConnClosed(c, flag)) => events_now.misses == events.misses + 1
                    && events_now.log == events.log && closes_now.log == closes.log.push((c, flag)),
                Some(_) => false,
                None => events_now.misses == events.misses + 1 && closes_now.misses == closes.misses
                    + 1 && events_now.log == events.log && closes_now.log == closes.log,
            }
        }),
{
}

/// Binding needs an address, and says so; with any it succeeds, and the server is new.
pub proof fn law_call_binds<C>(
    addrs: &[&str],
    callback: Option<C>,
    r: Result<(QuicheServerSocketImpl<C>, ServerInbox), BindError>,
)
    requires
        call_ensures(QuicheServerSocketImpl::<C>::bind, (addrs, callback), r),
    ensures
        r is Ok <==> addrs@.len() > 0,
        r matches Err(e) ==> e.kind == BindErrorKind::InvalidInput && e.message@
            == "bind requires at least one socket address"@,
        r matches Ok((server, inbox)) ==> {
            &&& server.stream_callback == callback
            &&& server.listening
            &&& server.id_counter == 0
            &&& server.closing@.len() == 0
            &&& forall|c: u64| !(#[trigger] server.connections@.contains_key(c))
            &&& event_tx(server.server_event_tx).channel == event_rx(inbox.server_event_rx).channel
            &&& event_tx(server.server_event_tx).capacity == 8192
            &&& close_tx(server.conn_close_tx).channel == close_rx(inbox.conn_close_rx).channel
            &&& close_tx(server.conn_close_tx).capacity == 1024
        },
{
    if let Ok((server, inbox)) = r {
        assert forall|c: u64| !(#[trigger] server.connections@.contains_key(c)) by {
            assert(!server.server_view().conns.contains_key(c));
        }
    }
}

/// A server object is planned only with a callback that can be called, and then with every address
/// in its place, and with the event descriptor unless that is -1.
pub proof fn law_call_prepares<C: Clone>(
    sockets: Vec<&SocketAddress>,
    event_fd_id: i32,
    on_stream: PhpValue<C>,
    r: Result<BindPlan<C>, PhpException>,
    i: int,
)
    requires
        call_ensures(
            QuicheServerSocket::<C>::prepare,
            (sockets, event_fd_id, on_stream),
            r,
        ),
    ensures
        r is Ok <==> on_stream.callable,
        r matches Err(e) ==> e.class == PhpClass::InvalidArgumentException && e.message@
            == "The $on_stream argument must be a callable (function, closure, or invokable object). Received: "@
            + on_stream.value_type.name(),
        r matches Ok(plan) ==> {
            &&& plan.on_stream == on_stream.value
            &&& plan.event_fd is Some <==> event_fd_id != -1
            &&& plan.event_fd matches Some(fd) ==> fd == event_fd_id
            &&& plan.addrs@.len() == sockets@.len()
            &&& 0 <= i < sockets@.len() ==> plan.addrs@[i]@ == sockets@[i].address@ + ":"@
                + number_text(sockets@[i].port as nat, 10)
        },
{
}

/// A server object is made of what was bound, or tells why nothing was.
pub proof fn law_call_constructs<C: Clone>(
    bound: Result<QuicheServerSocketImpl<C>, BindError>,
    event_fd: Option<tokio_eventfd::EventFd>,
    r: Result<QuicheServerSocket<C>, QuicheError>,
)
    requires
        call_ensures(QuicheServerSocket::<C>::__construct, (bound, event_fd), r),
    ensures
        r is Ok <==> bound is Ok,
        r matches Ok(object) ==> bound matches Ok(inner) && object.inner == inner && object.event_fd
            == event_fd,
        r matches Err(e) ==> bound matches Err(b) && e == QuicheError::RuntimeInit(b.message),
{
}

/// The halves of a stream: what was received is what is read, and what is written is what is sent.
pub proof fn law_call_reads_and_writes_halves(
    read: &ReadHalf,
    received: Option<StreamReader>,
    event: Option<StreamDataEvent>,
    write: &WriteHalf,
    data: Bytes,
    fin: bool,
    message: StreamWriter,
)
    ensures
        call_ensures(ReadHalf::read, (read, received), event) ==> {
            &&& event is Some <==> received is Some
            &&& event matches Some(e) ==> {
                &&& received == Some((e.data, e.fin, e.closed))
                &&& e.conn_id == read.conn_id
                &&& e.stream_id == read.stream_id
                &&& e.peer_addr@ == read.peer_addr@
            }
        },
        call_ensures(WriteHalf::write, (write, data, fin), message) ==> message.0 == write.stream_id
            && message.1 == Some(data) && message.2 == fin,
{
}

/// The driver is woken exactly for a message that was sent.
pub proof fn law_call_wakes_after_sending(
    half: &mut WriteHalf,
    sent: bool,
    r: Result<(), SendFailure>,
)
    requires
        call_ensures(WriteHalf::written, (half, sent), r),
    ensures
        r is Ok <==> sent,
        r matches Err(failure) ==> failure == SendFailure::Closed,
        sent ==> wakes(*final(half).write_notify) == wakes(*old(half).write_notify) + 1,
        !sent ==> wakes(*final(half).write_notify) == wakes(*old(half).write_notify),
        final(half).write_tx == old(half).write_tx,
{
}

/// A stream that the server opens has new slots of its own, writes through its connection, and
/// bears the identifier that was asked for.
pub proof fn law_call_opens_streams<C>(
    incoming: &IncomingBidiStream,
    incoming_uni: &IncomingUniStream,
    callbacks: &mut PhpStreamCallbacks<C>,
    s: StreamId,
    bidi: BidiStream,
    uni: UniStream,
)
    ensures
        call_ensures(IncomingBidiStream::open_bidi_stream::<C>, (incoming, callbacks, s), bidi) ==> {
            &&& bidi.stream_id == s
            &&& bidi.conn_id == incoming.conn_handle.conn_id
            &&& bidi.write_tx == incoming.conn_handle.write_tx
            &&& bidi.write_notify == incoming.conn_handle.write_notify
            &&& bidi.number == old(callbacks).next_number
            &&& final(callbacks).slots@.contains_key(s)
            &&& final(callbacks).slots@[s].number == bidi.number
            &&& final(callbacks).slots@[s].on_data is None
            &&& final(callbacks).slots@[s].on_close is None
        },
        call_ensures(IncomingBidiStream::open_uni_stream::<C>, (incoming, callbacks, s), uni) ==> {
            &&& uni.stream_id == s
            &&& uni.conn_id == incoming.conn_handle.conn_id
            &&& uni.write_tx == incoming.conn_handle.write_tx
            &&& uni.write_notify == incoming.conn_handle.write_notify
            &&& uni.number == old(callbacks).next_number
            &&& final(callbacks).slots@.contains_key(s)
            &&& final(callbacks).slots@[s].number == uni.number
            &&& final(callbacks).slots@[s].on_close is None
        },
        call_ensures(IncomingUniStream::open_bidi_stream::<C>, (incoming_uni, callbacks, s), bidi)
            ==> {
            &&& bidi.stream_id == s
            &&& bidi.conn_id == incoming_uni.conn_handle.conn_id
            &&& bidi.write_tx == incoming_uni.conn_handle.write_tx
            &&& bidi.write_notify == incoming_uni.conn_handle.write_notify
            &&& bidi.number == old(callbacks).next_number
            &&& final(callbacks).slots@.contains_key(s)
            &&& final(callbacks).slots@[s].number == bidi.number
            &&& final(callbacks).slots@[s].on_data is None
            &&& final(callbacks).slots@[s].on_close is None
        },
        call_ensures(IncomingUniStream::open_uni_stream::<C>, (incoming_uni, callbacks, s), uni)
            ==> {
            &&& uni.stream_id == s
            &&& uni.conn_id == incoming_uni.conn_handle.conn_id
            &&& uni.write_tx == incoming_uni.conn_handle.write_tx
            &&& uni.write_notify == incoming_uni.conn_handle.write_notify
            &&& uni.number == old(callbacks).next_number
            &&& final(callbacks).slots@.contains_key(s)
            &&& final(callbacks).slots@[s].number == uni.number
            &&& final(callbacks).slots@[s].on_close is None
        },
{
}

/// The record of a connection and its driver are made for each other.
pub proof fn law_call_builds<C>(
    conn_id: u64,
    peer_addr: String,
    server_event_tx: mpsc::Sender<(u64, DriverEvent)>,
    conn_close_tx: mpsc::Sender<(u64, bool)>,
    priority_recv: mpsc::Receiver<StreamPriority>,
    r: (ConnState<C>, StreamQuicDriver),
)
    requires
        call_ensures(
            ConnState::<C>::build,
            (conn_id, peer_addr, server_event_tx, conn_close_tx, priority_recv),
            r,
        ),
    ensures
        r.0.peer_addr == peer_addr,
        r.0.open_handle.peer_addr == peer_addr,
        r.0.open_handle.conn_id == conn_id,
        r.0.ending is None,
        forall|s: StreamId| !(#[trigger] r.0.php_stream_callbacks.slots@.contains_key(s)),
        r.1.conn_id == conn_id,
        r.1.event_tx == Some(server_event_tx),
        r.1.conn_close_tx == conn_close_tx,
        r.1.priority_recv == priority_recv,
        r.1.write_notify == r.0.open_handle.write_notify,
        write_tx(r.0.open_handle.write_tx).channel == write_rx(r.1.stream_event_recv).channel,
        write_tx(r.0.open_handle.write_tx).capacity == 256,
        r.1.io_worker_buf@.len() == 65536,
        !r.1.established,
{
}

/// The number of threads is at least one, what a positive number in the setting asks for, and else
/// at least two and as many as the machine runs at once.
pub proof fn law_call_counts_threads(
    setting: Option<&str>,
    asked: Option<usize>,
    available: Option<usize>,
    r: usize,
)
    requires
        call_ensures(worker_thread_count, (setting, available), r),
        setting matches Some(s) ==> call_ensures(parse_setting, (s,), asked),
        setting is None ==> asked is None,
    ensures
        r >= 1,
        asked matches Some(n) ==> r == n,
        asked is None ==> r >= 2,
        asked is None && available is None ==> r == 2,
        asked is None ==> (available matches Some(n) ==> n >= 2 ==> r == n),
{
}

/// The handshake lets the driver act, and nothing else does.
pub proof fn law_call_establishes(driver: &mut StreamQuicDriver, acts: bool)
    requires
        call_ensures(StreamQuicDriver::on_conn_established, (driver,), ()),
    ensures
        *final(driver) == (StreamQuicDriver { established: true, ..*old(driver) }),
        call_ensures(StreamQuicDriver::should_act, (&*final(driver),), acts) ==> acts,
        call_ensures(StreamQuicDriver::should_act, (&*old(driver),), acts) ==> acts
            == old(driver).established,
{
}

/// A callback was registered in a stream's slots of that number, or refused: it is in its own slot
/// and nothing else changed, or nothing did.
pub open spec fn slot_set<C>(
    was: Map<StreamId, StreamSlots<C>>,
    now: Map<StreamId, StreamSlots<C>>,
    s: StreamId,
    number: u64,
    f: PhpValue<C>,
    for_data: bool,
    r: Result<(), PhpException>,
) -> bool {
    let counts = f.callable && was.contains_key(s) && was[s].number == number;
    &&& r is Ok <==> f.callable
    &&& r matches Err(e) ==> e.class == PhpClass::Exception && e.message@ == (if for_data {
        "setOnData"@
    } else {
        "setOnClose"@
    }) + " expects a callable"@
    &&& !counts ==> now == was
    &&& counts ==> now.contains_key(s) && now[s].number == number
    &&& counts && for_data ==> now[s].on_data == Some(f.value) && now[s].on_close == was[s].on_close
    &&& counts && !for_data ==> now[s].on_close == Some(f.value) && now[s].on_data == was[s].on_data
    &&& forall|t: StreamId| t != s ==> (#[trigger] now.contains_key(t) <==> was.contains_key(t))
    &&& forall|t: StreamId| t != s && was.contains_key(t) ==> #[trigger] now[t] == was[t]
}

/// What a script registers through the object goes into the slots of the object's own stream.
pub proof fn law_call_registers_through_incoming_bidi<C>(
    stream: &mut IncomingBidiStream,
    callbacks: &mut PhpStreamCallbacks<C>,
    f: PhpValue<C>,
    r: Result<(), PhpException>,
)
    ensures
        call_ensures(IncomingBidiStream::set_on_data::<C>, (stream, callbacks, f), r) ==> *final(stream) == *old(stream)
            && slot_set(
            old(callbacks).slots@,
            final(callbacks).slots@,
            old(stream).stream_id,
            old(stream).number,
            f,
            true,
            r,
        ),
        call_ensures(IncomingBidiStream::set_on_close::<C>, (stream, callbacks, f), r) ==> *final(stream) == *old(stream)
            && slot_set(
            old(callbacks).slots@,
            final(callbacks).slots@,
            old(stream).stream_id,
            old(stream).number,
            f,
            false,
            r,
        ),
{
}

/// The object tells which stream it is.
pub proof fn law_call_identifies_incoming_bidi(stream: &IncomingBidiStream, id: u64, addr: String)
    ensures
        call_ensures(IncomingBidiStream::get_conn_id, (stream,), id) ==> id == stream.conn_id,
        call_ensures(IncomingBidiStream::get_stream_id, (stream,), id) ==> id == stream.stream_id,
        call_ensures(IncomingBidiStream::get_peer_addr, (stream,), addr) ==> addr@ == stream.peer_addr@,
{
}

/// What a script registers through the object goes into the slots of the object's own stream.
pub proof fn law_call_registers_through_incoming_uni<C>(
    stream: &mut IncomingUniStream,
    callbacks: &mut PhpStreamCallbacks<C>,
    f: PhpValue<C>,
    r: Result<(), PhpException>,
)
    ensures
        call_ensures(IncomingUniStream::set_on_data::<C>, (stream, callbacks, f), r) ==> *final(stream) == *old(stream)
            && slot_set(
            old(callbacks).slots@,
            final(callbacks).slots@,
            old(stream).stream_id,
            old(stream).number,
            f,
            true,
            r,
        ),
        call_ensures(IncomingUniStream::set_on_close::<C>, (stream, callbacks, f), r) ==> *final(stream) == *old(stream)
            && slot_set(
            old(callbacks).slots@,
            final(callbacks).slots@,
            old(stream).stream_id,
            old(stream).number,
            f,
            false,
            r,
        ),
{
}

/// The object tells which stream it is.
pub proof fn law_call_identifies_incoming_uni(stream: &IncomingUniStream, id: u64, addr: String)
    ensures
        call_ensures(IncomingUniStream::get_conn_id, (stream,), id) ==> id == stream.conn_id,
        call_ensures(IncomingUniStream::get_stream_id, (stream,), id) ==> id == stream.stream_id,
        call_ensures(IncomingUniStream::get_peer_addr, (stream,), addr) ==> addr@ == stream.peer_addr@,
{
}

/// What a script registers through the object goes into the slots of the object's own stream.
pub proof fn law_call_registers_through_bidi<C>(
    stream: &mut BidiStream,
    callbacks: &mut PhpStreamCallbacks<C>,
    f: PhpValue<C>,
    r: Result<(), PhpException>,
)
    ensures
        call_ensures(BidiStream::set_on_data::<C>, (stream, callbacks, f), r) ==> *final(stream) == *old(stream)
            && slot_set(
            old(callbacks).slots@,
            final(callbacks).slots@,
            old(stream).stream_id,
            old(stream).number,
            f,
            true,
            r,
        ),
        call_ensures(BidiStream::set_on_close::<C>, (stream, callbacks, f), r) ==> *final(stream) == *old(stream)
            && slot_set(
            old(callbacks).slots@,
            final(callbacks).slots@,
            old(stream).stream_id,
            old(stream).number,
            f,
            false,
            r,
        ),
{
}

/// The object tells which stream it is.
pub proof fn law_call_identifies_bidi(stream: &BidiStream, id: u64)
    ensures
        call_ensures(BidiStream::get_conn_id, (stream,), id) ==> id == stream.conn_id,
        call_ensures(BidiStream::get_stream_id, (stream,), id) ==> id == stream.stream_id,
{
}

/// What a script registers through the object goes into the slots of the object's own stream.
pub proof fn law_call_registers_through_uni<C>(
    stream: &mut UniStream,
    callbacks: &mut PhpStreamCallbacks<C>,
    f: PhpValue<C>,
    r: Result<(), PhpException>,
)
    ensures
        call_ensures(UniStream::set_on_close::<C>, (stream, callbacks, f), r) ==> *final(stream) == *old(stream)
            && slot_set(
            old(callbacks).slots@,
            final(callbacks).slots@,
            old(stream).stream_id,
            old(stream).number,
            f,
            false,
            r,
        ),
{
}

/// The object tells which stream it is.
pub proof fn law_call_identifies_uni(stream: &UniStream, id: u64)
    ensures
        call_ensures(UniStream::get_conn_id, (stream,), id) ==> id == stream.conn_id,
        call_ensures(UniStream::get_stream_id, (stream,), id) ==> id == stream.stream_id,
{
}

/// A round of the loop with a driver's data hands it over, as the dispatch does.
pub proof fn law_call_ticks_data<C: Clone>(
    object: &mut QuicheServerSocket<C>,
    c: u64,
    s: StreamId,
    data: Bytes,
    fin: bool,
    action: ServerAction<C>,
)
    requires
        old(object).inner.connections@.contains_key(c),
        old(object).inner.connections@[c].ending is None,
        call_ensures(
            QuicheServerSocket::<C>::tick,
            (object, ServerEvent::Driver(c, DriverEvent::Data { stream_id: s, data, fin })),
            action,
        ),
    ensures
        action matches ServerAction::Deliver { conn_id, stream_id, data: d, fin: f, .. } && conn_id
            == c && stream_id == s && d == data && f == fin,
        final(object).event_fd == old(object).event_fd,
{
    law_data_is_handed_over(
        old(object).inner.server_view(),
        c,
        s,
        data,
        fin,
        old(object).inner.stream_callback,
        action,
        final(object).inner.server_view(),
    );
}

/// A round of the loop ends it when the script asks for control, or when a source of events has
/// ended and the script has no way to ask; a failed accept does not.
pub proof fn law_call_ticks_exit<C: Clone>(
    object: &mut QuicheServerSocket<C>,
    event: ServerEvent,
    action: ServerAction<C>,
)
    requires
        event is Timer || event is Exhausted || event is AcceptError,
        call_ensures(QuicheServerSocket::<C>::tick, (object, event), action),
    ensures
        action is Exit || action is Wait,
        action is Exit <==> event is Timer || event is Exhausted && old(object).event_fd is None,
        final(object).inner.server_view() == old(object).inner.server_view(),
        final(object).inner.closing@ == old(object).inner.closing@,
        final(object).event_fd == old(object).event_fd,
{
}

/// A connection that is accepted gets the identifier that is next and a driver for it; a server
/// that is shut down accepts none.
pub proof fn law_call_ticks_accept<C: Clone>(
    object: &mut QuicheServerSocket<C>,
    peer_addr: String,
    priority_recv: mpsc::Receiver<StreamPriority>,
    action: ServerAction<C>,
)
    requires
        call_ensures(
            QuicheServerSocket::<C>::tick,
            (object, (ServerEvent::NewConn { peer_addr, priority_recv })),
            action,
        ),
    ensures
        !old(object).inner.listening ==> action is Wait && final(object).inner.server_view()
            == old(object).inner.server_view(),
        old(object).inner.listening ==> {
            let id = old(object).inner.id_counter;
            let conn = final(object).inner.server_view().conns[id];
            &&& action matches ServerAction::Start(driver)
            &&& driver.conn_id == id
            &&& driver.event_tx == Some(old(object).inner.server_event_tx)
            &&& driver.conn_close_tx == old(object).inner.conn_close_tx
            &&& driver.write_notify == conn.handle.write_notify
            &&& driver.io_worker_buf@.len() == 65536
            &&& final(object).inner.server_view().conns.contains_key(id)
            &&& conn.peer_addr == peer_addr
            &&& conn.ending is None
            &&& forall|s: StreamId| !(#[trigger] conn.slots.contains_key(s))
            &&& final(object).inner.id_counter as int == (id + 1) % 0x1_0000_0000_0000_0000
            &&& forall|d: u64|
                d != id && old(object).inner.server_view().conns.contains_key(d)
                    ==> #[trigger] final(object).inner.server_view().conns[d]
                    == old(object).inner.server_view().conns[d]
        },
{
    law_accepted_connection(
        old(object).inner,
        peer_addr,
        priority_recv,
        old(object).event_fd is Some,
        action,
        final(object).inner,
    );
}

/// Closing the object shuts its server down and gives up its event descriptor.
pub proof fn law_call_closes_object<C: Clone>(object: &mut QuicheServerSocket<C>, c: u64)
    requires
        call_ensures(QuicheServerSocket::<C>::close, (object,), ()),
    ensures
        final(object).event_fd is None,
        !final(object).inner.listening,
        old(object).inner.connections@.contains_key(c) ==> final(object).inner.server_view().conns[c].ending
            == Some(
            match old(object).inner.connections@[c].ending {
                Some(flag) => flag,
                None => false,
            },
        ),
{
    law_shutdown_and_retire_steps(old(object).inner.server_view(), c, c);
}

/// Texts of an address, an error and an event are what these hold.
pub proof fn law_call_writes_texts(
    address: &SocketAddress,
    error: &QuicheError,
    e: PhpException,
    event: &StreamDataEvent,
    text: String,
)
    ensures
        call_ensures(SocketAddress::get_address_result, (address,), text) ==> text@
            == address.address@ + ":"@ + number_text(address.port as nat, 10),
        call_ensures(QuicheError::to_text, (error,), text) ==> text@ == error.text(),
        call_ensures(QuicheError::to_exception, (error,), e) ==> e.class == PhpClass::Exception
            && e.message@ == error.text(),
        call_ensures(StreamDataEvent::to_text, (event,), text) ==> text@ == event.text(),
{
}

/// An address keeps what is set.
pub proof fn law_call_sets_address(
    a: &mut SocketAddress,
    address: String,
    port: u16,
    shown: String,
    shown_port: u16,
)
    ensures
        call_ensures(SocketAddress::set_address, (a, address), ()) ==> *final(a) == (SocketAddress {
            address,
            port: old(a).port,
        }),
        call_ensures(SocketAddress::set_port, (a, port), ()) ==> *final(a) == (SocketAddress {
            address: old(a).address,
            port,
        }),
        call_ensures(SocketAddress::get_address, (&*old(a),), shown) ==> shown@ == old(a).address@,
        call_ensures(SocketAddress::get_port, (&*old(a),), shown_port) ==> shown_port == old(a).port,
{
}

/// Numbers are written behind what is there, by their digits, and read by theirs; what was written
/// is read as the same number.
pub proof fn law_call_writes_and_reads_numbers(
    out: &mut String,
    n: u128,
    signed: i64,
    radix: u8,
    text: &str,
    max: u128,
    value: Option<u128>,
)
    requires
        radix == 10 || radix == 16,
    ensures
        call_ensures(append_number, (out, n, radix), ()) ==> final(out)@ == old(out)@ + number_text(
            n as nat,
            radix as nat,
        ),
        call_ensures(append_integer, (out, signed), ()) ==> final(out)@ == old(out)@ + (if signed
            < 0 {
            seq!['-'] + number_text((-signed) as nat, 10)
        } else {
            number_text(signed as nat, 10)
        }),
        call_ensures(parse_number, (text, radix, max), value) ==> match numeral_value(
            text@,
            radix as nat,
            max as nat,
        ) {
            Some(m) => value matches Some(v) && v as nat == m,
            None => value is None,
        },
        call_ensures(parse_number, (text, radix, max), value) && text@ == number_text(
            n as nat,
            radix as nat,
        ) && n <= max ==> value == Some(n),
{
    lemma_digits_of_number(n as nat, radix as nat);
    law_sign_is_written_first(
        if signed < 0 {
            (-signed) as nat
        } else {
            signed as nat
        },
    );
}

/// What the channel said decides: the driver is woken for a chunk that was taken, and the script is
/// told of one that was not.
pub proof fn law_call_finishes_write(
    notify: &mut std::sync::Arc<tokio::sync::Notify>,
    what: &str,
    sent: Result<(), SendFailure>,
    r: Result<(), PhpException>,
)
    requires
        call_ensures(finish_write, (notify, what, sent), r),
    ensures
        r is Ok <==> sent is Ok,
        sent is Ok ==> wakes(**final(notify)) == wakes(**old(notify)) + 1,
        sent is Err ==> wakes(**final(notify)) == wakes(**old(notify)),
        r matches Err(e) ==> e.class == PhpClass::Exception && e.message@ == what@ + " failed: "@ + (
        match sent->Err_0 {
            SendFailure::Full => "no available capacity"@,
            SendFailure::Closed => "channel closed"@,
        }),
{
}

/// The reservation decides whether a stream is announced and read: with a place it is, without one
/// nothing is reported and the channel's end comes back.
pub proof fn law_call_follows_the_reservation(
    driver: &mut StreamQuicDriver,
    s: StreamId,
    reserved: Result<
        mpsc::OwnedPermit<(u64, DriverEvent)>,
        mpsc::Sender<(u64, DriverEvent)>,
    >,
    done: bool,
    action: ReadAction,
)
    ensures
        call_ensures(StreamQuicDriver::announce, (driver, s, reserved), done) ==> {
            &&& done <==> reserved is Ok
            &&& reserved matches Ok(permit) ==> final(driver).event_tx is Some && event_tx(
                final(driver).event_tx->0,
            ).log == event_permit(permit).log.push(
                (
                    old(driver).conn_id,
                    if s & 2 == 0 {
                        DriverEvent::NewBidi(s)
                    } else {
                        DriverEvent::NewUni(s)
                    },
                ),
            ) && final(driver).seen_streams@ == old(driver).seen_streams@.insert(s)
            &&& reserved matches Err(tx) ==> final(driver).event_tx == Some(tx) && final(driver).seen_streams@ == old(driver).seen_streams@
        },
        call_ensures(StreamQuicDriver::begin_recv, (driver, s, reserved), action) ==> {
            &&& action == (if reserved is Ok {
                ReadAction::Recv(s)
            } else {
                ReadAction::Stop
            })
            &&& reserved matches Ok(permit) ==> final(driver).reading matches Some(reading)
                && reading.stream_id == s && reading.permit == permit
            &&& reserved matches Err(tx) ==> final(driver).event_tx == Some(tx)
        },
{
    assert((s & 2 == 0) == ((s / 2) % 2 == 0)) by (bit_vector);
}

/// A bidirectional stream parts into the halves that it is made of, and a stream that the peer
/// opened is known by the half that is read.
pub proof fn law_call_parts_streams(
    stream: BiDirectionalQuicheStream,
    parts: (ReadableQuicheStream, WriteableQuicheStream),
    accepted: &AcceptedRemoteStream,
    id: u64,
    addr: String,
)
    ensures
        call_ensures(BiDirectionalQuicheStream::split, (stream,), parts) ==> parts.0.inner
            == stream.read && parts.1.inner == stream.write,
        call_ensures(AcceptedRemoteStream::stream_id, (accepted,), id) ==> id == (match accepted {
            AcceptedRemoteStream::Readable(s) => s.inner.stream_id,
            AcceptedRemoteStream::BiDirectional(s) => s.read.stream_id,
        }),
        call_ensures(AcceptedRemoteStream::peer_addr, (accepted,), addr) ==> addr@ == (match accepted {
            AcceptedRemoteStream::Readable(s) => s.inner.peer_addr@,
            AcceptedRemoteStream::BiDirectional(s) => s.read.peer_addr@,
        }),
{
}

/// Every priority change that was received is applied as it came, before any chunk is tried; a
/// chunk is tried only once no change is left and all messages that wait have queued up.
pub proof fn law_call_applies_priorities_first(
    driver: &mut StreamQuicDriver,
    event: WriteEvent,
    action: WriteAction,
    s: StreamId,
)
    requires
        event is Start || event is PrioritySet,
        call_ensures(StreamQuicDriver::process_writes, (driver, event), action),
    ensures
        ({
            let was = priority_rx(old(driver).priority_recv);
            let now = priority_rx(final(driver).priority_recv);
            let before = write_rx(old(driver).stream_event_recv);
            let after = write_rx(final(driver).stream_event_recv);
            match action {
                WriteAction::SetPriority { stream_id, urgency, incremental } => {
                    &&& now.log == was.log.push((stream_id, urgency, incremental))
                    &&& final(driver).write_view() == old(driver).write_view()
                    &&& after == before
                },
                _ => {
                    &&& now.log == was.log
                    &&& now.misses == was.misses + 1
                    &&& after.misses == before.misses + 1 || after.log.len() == before.log.len()
                        + u64::MAX
                    &&& queue_of(final(driver).write_view().pending, s) == queue_of(
                        old(driver).write_view().pending,
                        s,
                    ) + chunks_for(
                        after.log.subrange(before.log.len() as int, after.log.len() as int),
                        s,
                    )
                    &&& action is Stop <==> final(driver).flush@.len() == 0
                    &&& action matches WriteAction::Send { stream_id, data, fin } ==> payload(data)
                        == final(driver).write_view().pending[stream_id][0].0 && fin
                        == final(driver).write_view().pending[stream_id][0].1
                },
            }
        }),
        final(driver).seen_streams == old(driver).seen_streams,
        final(driver).event_tx == old(driver).event_tx,
        final(driver).conn_close_tx == old(driver).conn_close_tx,
{
    if !(action is SetPriority) {
        law_received_messages_wait(*final(driver), *old(driver), s);
        law_first_chunk_is_tried(final(driver).write_view(), action);
    }
}

} // verus!
