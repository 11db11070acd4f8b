//! What the server does about each event, told by what the script gets and by what changes.

use crate::channel::{wakes, write_rx, write_tx};
use crate::quiche::conn::{
    notice, CallbackSlot, DriverEvent, StreamId, StreamPriority, StreamSlots, STREAM_BUFFER_SIZE,
};
use crate::quiche::lifecycle::{
    lemma_spent_after, lemma_wf_after, served, ConnView, ServerView, SlotsId, Step,
};
use crate::quiche::socket::{
    closes_rest, dispatches, ends_conn, QuicheServerSocketImpl, ServerAction, ServerEvent,
};
use bytes::Bytes;
use tokio::sync::mpsc;
use vstd::prelude::*;

verus! {

/// Whatever data comes on a connection that is served, empty data too, is handed to the script: to
/// what is registered for the data of that stream, with the very data and end mark that came.
pub proof fn law_data_is_handed_over<C: Clone>(
    was: ServerView<C>,
    c: u64,
    s: StreamId,
    data: Bytes,
    fin: bool,
    on_stream: CallbackSlot<C>,
    action: ServerAction<C>,
    now: ServerView<C>,
)
    requires
        dispatches(was, c, DriverEvent::Data { stream_id: s, data, fin }, on_stream, action, now),
        was.conns.contains_key(c),
        was.conns[c].ending is None,
    ensures
        now == was,
        action is Deliver,
        action->conn_id == c,
        action->stream_id == s,
        action->data == data,
        action->fin == fin,
        !was.conns[c].slots.contains_key(s) ==> action->Deliver_callback is None,
        was.conns[c].slots.contains_key(s) ==> match was.conns[c].slots[s].on_data {
            Some(f) => action->Deliver_callback matches Some(g) && cloned(f, g),
            None => action->Deliver_callback is None,
        },
{
}

/// A stream that the peer opens on a connection that is served is shown to the script, as what it
/// is, with everything that the connection's streams write through; its slots are new.
pub proof fn law_new_stream_is_shown<C: Clone>(
    was: ServerView<C>,
    c: u64,
    s: StreamId,
    bidi: bool,
    on_stream: CallbackSlot<C>,
    action: ServerAction<C>,
    now: ServerView<C>,
)
    requires
        dispatches(
            was,
            c,
            if bidi {
                DriverEvent::NewBidi(s)
            } else {
                DriverEvent::NewUni(s)
            },
            on_stream,
            action,
            now,
        ),
        was.conns.contains_key(c),
        was.conns[c].ending is None,
    ensures
        ({
            let conn = was.conns[c];
            if bidi {
                &&& action matches ServerAction::ShowBidi { callback, bidi: b }
                &&& b.conn_id == c
                &&& b.stream_id == s
                &&& b.peer_addr == conn.peer_addr
                &&& b.write_tx == conn.handle.write_tx
                &&& b.write_notify == conn.handle.write_notify
                &&& b.number == conn.next_number
                &&& b.conn_handle == conn.handle
                &&& match on_stream {
                    Some(f) => callback matches Some(g) && cloned(f, g),
                    None => callback is None,
                }
            } else {
                &&& action matches ServerAction::ShowUni { callback, uni: u }
                &&& u.conn_id == c
                &&& u.stream_id == s
                &&& u.peer_addr == conn.peer_addr
                &&& u.number == conn.next_number
                &&& u.conn_handle == conn.handle
                &&& match on_stream {
                    Some(f) => callback matches Some(g) && cloned(f, g),
                    None => callback is None,
                }
            }
        }),
        now.conns.contains_key(c),
        now.conns[c].slots.contains_key(s),
        now.conns[c].slots[s].number == was.conns[c].next_number,
        now.conns[c].slots[s].on_data is None,
        now.conns[c].slots[s].on_close is None,
        forall|t: StreamId|
            t != s ==> (#[trigger] now.conns[c].slots.contains_key(t)
                <==> was.conns[c].slots.contains_key(t)),
        forall|t: StreamId|
            t != s && was.conns[c].slots.contains_key(t) ==> #[trigger] now.conns[c].slots[t]
                == was.conns[c].slots[t],
        forall|d: u64|
            d != c ==> (#[trigger] now.conns.contains_key(d) <==> was.conns.contains_key(d)),
        forall|d: u64|
            d != c && was.conns.contains_key(d) ==> #[trigger] now.conns[d] == was.conns[d],
        now.id_counter == was.id_counter,
{
}

/// What a driver reports of a connection that is not there or has ended is dropped: the script
/// gets nothing of it, and nothing changes.
pub proof fn law_late_report_is_dropped<C: Clone>(
    was: ServerView<C>,
    c: u64,
    ev: DriverEvent,
    on_stream: CallbackSlot<C>,
    action: ServerAction<C>,
    now: ServerView<C>,
)
    requires
        dispatches(was, c, ev, on_stream, action, now),
        !was.conns.contains_key(c) || was.conns[c].ending is Some,
    ensures
        action is Wait,
        now == was,
{
}

/// A server that takes what a driver reports, and finishes the data that it hands over, goes
/// through the states that the report's stream goes through: slots with its announcement, none
/// after its end.
pub proof fn law_reports_are_served<C: Clone>(
    was: ServerView<C>,
    c: u64,
    ev: DriverEvent,
    on_stream: CallbackSlot<C>,
    action: ServerAction<C>,
    now: ServerView<C>,
)
    requires
        dispatches(was, c, ev, on_stream, action, now),
        was.serves(c),
    ensures
        served(was, c, seq![(c, ev)]) == (match action {
            ServerAction::Deliver { conn_id, stream_id, fin, .. } => if fin {
                now.take(Step::End(conn_id, stream_id))
            } else {
                now
            },
            _ => now,
        }),
        ev is Data <==> action is Deliver,
{
    reveal_with_fuel(served, 2);
    assert(seq![(c, ev)].drop_last() =~= Seq::<(u64, DriverEvent)>::empty());
}

/// The end of a connection marks it, with the flag that was given, and leaves its streams to be
/// told; a connection that is not there, or has ended before, is not marked again.
pub proof fn law_end_marks_the_connection<C>(
    was: ServerView<C>,
    c: u64,
    flag: bool,
    action: ServerAction<C>,
    now: ServerView<C>,
)
    requires
        ends_conn(was, c, flag, action, now),
    ensures
        now.id_counter == was.id_counter,
        forall|d: u64| #[trigger] now.conns.contains_key(d) <==> was.conns.contains_key(d),
        forall|d: u64|
            d != c && was.conns.contains_key(d) ==> #[trigger] now.conns[d] == was.conns[d],
        if was.conns.contains_key(c) && was.conns[c].ending is None {
            &&& action is Close
            &&& now.conns[c] == (ConnView { ending: Some(flag), ..was.conns[c] })
        } else {
            &&& action is Wait
            &&& now == was
        },
{
}

/// A connection that is accepted gets the next identifier and a driver of its own, which is tied
/// to it and has done nothing; nobody else's record changes.
pub proof fn law_accepted_connection<C: Clone>(
    server: QuicheServerSocketImpl<C>,
    peer_addr: String,
    priority_recv: mpsc::Receiver<StreamPriority>,
    has_event_fd: bool,
    action: ServerAction<C>,
    next: QuicheServerSocketImpl<C>,
)
    requires
        server.on_tick(
            (ServerEvent::NewConn { peer_addr, priority_recv }),
            has_event_fd,
            action,
            &next,
        ),
    ensures
        next.closing@ == server.closing@,
        !server.listening ==> action is Wait && next.server_view() == server.server_view(),
        server.listening ==> {
            let id = server.id_counter;
            let was = server.server_view();
            let now = next.server_view();
            let conn = now.conns[id];
            &&& action matches ServerAction::Start(driver)
            &&& now.id_counter as int == (id + 1) % 0x1_0000_0000_0000_0000
            &&& now.conns.contains_key(id)
            &&& forall|d: u64|
                d != id ==> (#[trigger] now.conns.contains_key(d) <==> was.conns.contains_key(d))
            &&& forall|d: u64|
                d != id && was.conns.contains_key(d) ==> #[trigger] now.conns[d] == was.conns[d]
            &&& conn.peer_addr == peer_addr
            &&& conn.ending is None
            &&& conn.next_number == 0
            &&& forall|s: StreamId| !(#[trigger] conn.slots.contains_key(s))
            &&& conn.handle.conn_id == id
            &&& conn.handle.peer_addr == peer_addr
            &&& driver.conn_id == id
            &&& driver.priority_recv == priority_recv
            &&& driver.event_tx == Some(server.server_event_tx)
            &&& driver.conn_close_tx == server.conn_close_tx
            &&& driver.write_notify == conn.handle.write_notify
            &&& wakes(*driver.write_notify) == 0
            &&& !driver.established
            &&& driver.reading is None
            &&& driver.io_worker_buf@.len() == STREAM_BUFFER_SIZE
            &&& forall|s: StreamId| !(#[trigger] driver.seen_streams@.contains(s))
            &&& forall|s: StreamId| !(#[trigger] driver.pending_writes@.contains_key(s))
            &&& driver.flush@.len() == 0
            &&& write_tx(conn.handle.write_tx).channel == write_rx(driver.stream_event_recv).channel
            &&& write_tx(conn.handle.write_tx).capacity == 256
            &&& write_tx(conn.handle.write_tx).log.len() == 0
            &&& write_rx(driver.stream_event_recv).log.len() == 0
            &&& driver.wf()
            &&& driver.read_view().in_order()
        },
{
    if server.listening {
        if let ServerAction::Start(driver) = action {
            assert forall|s: StreamId| !(#[trigger] driver.pending_writes@.contains_key(s)) by {
                assert(!driver.pending_writes@.dom().contains(s));
            }
        }
    }
}

/// What each other event comes to: a driver's report is dispatched, a close signal ends its
/// connection and lists it, a failed accept changes nothing, and the script gets control when it
/// asks for it or, where it cannot ask, when a source of events has ended.
pub proof fn law_other_events<C: Clone>(
    server: QuicheServerSocketImpl<C>,
    event: ServerEvent,
    has_event_fd: bool,
    action: ServerAction<C>,
    next: QuicheServerSocketImpl<C>,
)
    requires
        server.on_tick(event, has_event_fd, action, &next),
    ensures
        match event {
            ServerEvent::Driver(c, ev) => dispatches(
                server.server_view(),
                c,
                ev,
                server.stream_callback,
                action,
                next.server_view(),
            ) && next.closing@ == server.closing@,
            ServerEvent::ConnClosed(c, flag) => {
                &&& ends_conn(server.server_view(), c, flag, action, next.server_view())
                &&& if server.server_view().conns.contains_key(c)
                    && server.server_view().conns[c].ending is None {
                    next.closing@ == server.closing@.push(c)
                } else {
                    next.closing@ == server.closing@
                }
            },
            ServerEvent::NewConn { .. } => true,
            ServerEvent::AcceptError => action is Wait && next.server_view() == server.server_view(),
            ServerEvent::Timer => action is Exit && next.server_view() == server.server_view(),
            ServerEvent::Exhausted => {
                &&& action is Exit <==> !has_event_fd
                &&& action is Wait <==> has_event_fd
                &&& next.server_view() == server.server_view()
            },
        },
{
}

/// A server's connections are what its records hold, field by field.
pub proof fn law_server_view_shows_records<C>(server: QuicheServerSocketImpl<C>, c: u64)
    ensures
        server.server_view().id_counter == server.id_counter,
        server.server_view().conns.contains_key(c) <==> server.connections@.contains_key(c),
        server.connections@.contains_key(c) ==> {
            let conn = server.server_view().conns[c];
            let state = server.connections@[c];
            &&& conn.peer_addr == state.peer_addr
            &&& conn.handle == state.open_handle
            &&& conn.slots == state.php_stream_callbacks.slots@
            &&& conn.next_number == state.php_stream_callbacks.next_number
            &&& conn.ending == state.ending
        },
{
}

/// The callback for new streams and the ends that are cloned into drivers do not change with
/// events.
pub proof fn law_ends_stay<C>(server: QuicheServerSocketImpl<C>, other: QuicheServerSocketImpl<C>)
    requires
        server.same_ends(&other),
    ensures
        server.stream_callback == other.stream_callback,
        server.server_event_tx == other.server_event_tx,
        server.conn_close_tx == other.conn_close_tx,
{
}

/// Opening a stream gives it empty slots of a new number and changes nothing else.
pub proof fn law_open_step<C>(was: ServerView<C>, c: u64, s: StreamId, d: u64, t: StreamId)
    ensures
        ({
            let now = was.take(Step::Open(c, s));
            &&& now.id_counter == was.id_counter
            &&& now.conns.contains_key(d) <==> was.conns.contains_key(d)
            &&& d != c && was.conns.contains_key(d) ==> now.conns[d] == was.conns[d]
            &&& was.conns.contains_key(c) ==> {
                &&& now.conns[c].slots.contains_key(s)
                &&& now.conns[c].slots[s].number == was.conns[c].next_number
                &&& now.conns[c].slots[s].on_data is None
                &&& now.conns[c].slots[s].on_close is None
                &&& now.conns[c].next_number as int == (was.conns[c].next_number + 1)
                    % 0x1_0000_0000_0000_0000
                &&& now.conns[c].peer_addr == was.conns[c].peer_addr
                &&& now.conns[c].handle == was.conns[c].handle
                &&& now.conns[c].ending == was.conns[c].ending
                &&& t != s ==> (now.conns[c].slots.contains_key(t)
                    <==> was.conns[c].slots.contains_key(t))
                &&& t != s && was.conns[c].slots.contains_key(t) ==> now.conns[c].slots[t]
                    == was.conns[c].slots[t]
            }
        }),
{
}

/// A stream whose end is told, by the peer's end of it or by that of its connection, loses its
/// slots and nothing else changes. The peer's end counts only on a connection that is served, that
/// of a connection only on one that has ended.
pub proof fn law_end_steps<C>(was: ServerView<C>, c: u64, s: StreamId, d: u64, t: StreamId, step: Step<C>)
    requires
        step == Step::<C>::End(c, s) || step == Step::<C>::Tell(c, s),
    ensures
        ({
            let now = was.take(step);
            let counts = was.conns.contains_key(c) && (was.conns[c].ending is None <==> step is End);
            &&& now.id_counter == was.id_counter
            &&& now.conns.contains_key(d) <==> was.conns.contains_key(d)
            &&& d != c && was.conns.contains_key(d) ==> now.conns[d] == was.conns[d]
            &&& !counts ==> now == was
            &&& counts ==> {
                &&& !now.conns[c].slots.contains_key(s)
                &&& now.conns[c].peer_addr == was.conns[c].peer_addr
                &&& now.conns[c].handle == was.conns[c].handle
                &&& now.conns[c].ending == was.conns[c].ending
                &&& now.conns[c].next_number == was.conns[c].next_number
                &&& t != s ==> (now.conns[c].slots.contains_key(t)
                    <==> was.conns[c].slots.contains_key(t))
                &&& t != s && was.conns[c].slots.contains_key(t) ==> now.conns[c].slots[t]
                    == was.conns[c].slots[t]
            }
        }),
{
}

/// The shutdown marks every connection that has not ended as ended by the server, and changes
/// nothing else; an ended connection's record goes exactly when none of its streams has slots.
pub proof fn law_shutdown_and_retire_steps<C>(was: ServerView<C>, c: u64, d: u64)
    ensures
        ({
            let now = was.take(Step::Shutdown);
            &&& now.id_counter == was.id_counter
            &&& now.conns.contains_key(c) <==> was.conns.contains_key(c)
            &&& was.conns.contains_key(c) && was.conns[c].ending is Some ==> now.conns[c]
                == was.conns[c]
            &&& was.conns.contains_key(c) && was.conns[c].ending is None ==> now.conns[c] == (
            ConnView { ending: Some(false), ..was.conns[c] })
        }),
        ({
            let now = was.take(Step::Retire(c));
            &&& now.id_counter == was.id_counter
            &&& d != c ==> (now.conns.contains_key(d) <==> was.conns.contains_key(d))
            &&& d != c && was.conns.contains_key(d) ==> now.conns[d] == was.conns[d]
            &&& was.conns.contains_key(c) ==> (!now.conns.contains_key(c)
                <==> was.conns[c].ending is Some && forall|s: StreamId|
                !(#[trigger] was.conns[c].slots.contains_key(s)))
            &&& now.conns.contains_key(c) ==> was.conns.contains_key(c) && now.conns[c]
                == was.conns[c]
        }),
{
    if was.conns.contains_key(c) && forall|s: StreamId|
        !(#[trigger] was.conns[c].slots.contains_key(s)) {
        assert(was.conns[c].slots =~= Map::<StreamId, StreamSlots<C>>::empty());
    }
}

/// Callbacks go into the slots that they are meant for, and only while these are the stream's.
pub proof fn law_install_step<C>(
    was: ServerView<C>,
    c: u64,
    s: StreamId,
    slots: StreamSlots<C>,
    d: u64,
    t: StreamId,
)
    ensures
        ({
            let now = was.take(Step::Install(c, s, slots));
            let counts = was.conns.contains_key(c) && was.conns[c].slots.contains_key(s)
                && was.conns[c].slots[s].number == slots.number;
            &&& now.id_counter == was.id_counter
            &&& now.conns.contains_key(d) <==> was.conns.contains_key(d)
            &&& d != c && was.conns.contains_key(d) ==> now.conns[d] == was.conns[d]
            &&& !counts ==> now == was
            &&& counts ==> {
                &&& now.conns[c].slots.contains_key(s)
                &&& now.conns[c].slots[s] == slots
                &&& now.conns[c].ending == was.conns[c].ending
                &&& now.conns[c].next_number == was.conns[c].next_number
                &&& now.conns[c].handle == was.conns[c].handle
                &&& now.conns[c].peer_addr == was.conns[c].peer_addr
                &&& t != s ==> (now.conns[c].slots.contains_key(t)
                    <==> was.conns[c].slots.contains_key(t))
                &&& t != s && was.conns[c].slots.contains_key(t) ==> now.conns[c].slots[t]
                    == was.conns[c].slots[t]
            }
        }),
{
}

/// Who is told of an end, and what: the stream that the peer ended, on a connection that is
/// served, that the peer ended it; the stream whose turn it is, on a connection that has ended,
/// what that connection's end was. Nothing else is told to anyone.
pub proof fn law_who_is_told<C>(was: ServerView<C>, step: Step<C>, id: SlotsId)
    ensures
        was.notifies(step, id) ==> step is End || step is Tell,
        step is End || step is Tell ==> {
            let c = id.conn_id;
            let s = id.stream_id;
            was.notifies(step, id) <==> {
                &&& step == Step::<C>::End(c, s) || step == Step::<C>::Tell(c, s)
                &&& was.conns.contains_key(c)
                &&& was.conns[c].slots.contains_key(s)
                &&& was.conns[c].slots[s].number == id.number
                &&& was.conns[c].ending is None <==> step is End
            }
        },
        was.notifies(step, id) ==> was.told_flag(step) == (match was.conns[id.conn_id].ending {
            None => true,
            Some(flag) => flag,
        }),
{
}

/// The callback that a script has registered for the end of a stream is the one that the stream's
/// only notice holds, unless another is registered in its place or the stream is given new slots,
/// and the notice holds the flag of what ended the stream.
pub proof fn law_registered_callback_is_told<C>(
    server: ServerView<C>,
    steps: Seq<Step<C>>,
    id: SlotsId,
    i: int,
)
    requires
        server.wf(),
        server.all_regular(steps),
        server.live(id),
        0 <= i < steps.len(),
        forall|k: int|
            0 <= k < i ==> (match #[trigger] steps[k] {
                Step::Open(c, s) => !(c == id.conn_id && s == id.stream_id),
                Step::Install(c, s, _) => !(c == id.conn_id && s == id.stream_id),
                _ => true,
            }),
        server.after(steps, i).notifies(steps[i], id),
    ensures
        ({
            let slots = server.after(steps, i).conns[id.conn_id].slots[id.stream_id];
            let flag = server.after(steps, i).told_flag(steps[i]);
            let n = notice(id.stream_id, slots, flag);
            &&& n.on_close == server.conns[id.conn_id].slots[id.stream_id].on_close
            &&& n.number == id.number
            &&& n.stream_id == id.stream_id
            &&& n.peer_closed == flag
        }),
{
    lemma_slots_stay(server, steps, id, i);
}

/// Slots that are still the stream's at `i` hold what they held, where nothing was registered in
/// them and no new slots were given.
proof fn lemma_slots_stay<C>(server: ServerView<C>, steps: Seq<Step<C>>, id: SlotsId, i: int)
    requires
        server.wf(),
        server.all_regular(steps),
        server.live(id),
        0 <= i <= steps.len(),
        forall|k: int|
            0 <= k < i ==> (match #[trigger] steps[k] {
                Step::Open(c, s) => !(c == id.conn_id && s == id.stream_id),
                Step::Install(c, s, _) => !(c == id.conn_id && s == id.stream_id),
                _ => true,
            }),
        server.after(steps, i).live(id),
    ensures
        server.after(steps, i).conns[id.conn_id].slots[id.stream_id]
            == server.conns[id.conn_id].slots[id.stream_id],
    decreases i,
{
    if i > 0 {
        let before = server.after(steps, i - 1);
        lemma_wf_after(server, steps, i - 1);
        assert(before.regular(steps[i - 1]));
        if !before.live(id) {
            lemma_gone_is_spent(server, steps, id, i - 1);
            lemma_spent_after(server, steps, i - 1, i, id);
        }
        lemma_slots_stay(server, steps, id, i - 1);
        assert(match steps[i - 1] {
            Step::Open(c, s) => !(c == id.conn_id && s == id.stream_id),
            Step::Install(c, s, _) => !(c == id.conn_id && s == id.stream_id),
            _ => true,
        });
    }
}

/// Slots that were a stream's and are it no more are spent.
proof fn lemma_gone_is_spent<C>(server: ServerView<C>, steps: Seq<Step<C>>, id: SlotsId, k: int)
    requires
        server.wf(),
        server.all_regular(steps),
        server.live(id),
        0 <= k <= steps.len(),
    ensures
        server.after(steps, k).live(id) || server.after(steps, k).spent(id),
    decreases k,
{
    if k > 0 {
        lemma_gone_is_spent(server, steps, id, k - 1);
        let before = server.after(steps, k - 1);
        lemma_wf_after(server, steps, k - 1);
        assert(before.regular(steps[k - 1]));
        if before.spent(id) {
            lemma_spent_after(server, steps, k - 1, k, id);
        } else {
            assert(before.conns[id.conn_id].slots.contains_key(id.stream_id));
        }
    }
}

/// The list of connections to be told of grows by each connection that is served, once, when the
/// server is shut down: what was on it stays, in its place, and nothing else comes on it.
pub proof fn law_shutdown_lists_who_is_served<C>(
    was: ServerView<C>,
    before: Seq<u64>,
    after: Seq<u64>,
    c: u64,
)
    requires
        closes_rest(was, before, after),
    ensures
        before.len() <= after.len(),
        forall|i: int| 0 <= i < before.len() ==> #[trigger] after[i] == before[i],
        was.conns.contains_key(c) && was.conns[c].ending is None ==> exists|i: int|
            before.len() <= i < after.len() && #[trigger] after[i] == c,
        forall|i: int|
            before.len() <= i < after.len() ==> was.conns.contains_key(#[trigger] after[i])
                && was.conns[after[i]].ending is None,
        forall|i: int, j: int|
            before.len() <= i < j < after.len() ==> #[trigger] after[i] != #[trigger] after[j],
{
    let n = before.len() as int;
    let added = after.skip(n);
    assert forall|i: int| 0 <= i < n implies #[trigger] after[i] == before[i] by {
        assert(after.take(n)[i] == before[i]);
    }
    assert forall|i: int| n <= i < after.len() implies was.conns.contains_key(#[trigger] after[i])
        && was.conns[after[i]].ending is None by {
        assert(added[i - n] == after[i]);
        assert(added.contains(after[i]));
        assert(was.serves(after[i]));
    }
    assert forall|i: int, j: int| n <= i < j < after.len() implies #[trigger] after[i]
        != #[trigger] after[j] by {
        assert(added[i - n] != added[j - n]);
    }
    if was.serves(c) {
        assert(added.contains(c));
        let k = choose|k: int| 0 <= k < added.len() && added[k] == c;
        assert(after[n + k] == c);
    }
}

} // verus!
