//! The server: it keeps a record of each connection and turns what happens into what is to be
//! done.

use crate::channel::{
    clone_notify, clone_sender, close_channel, close_rx, close_tx, event_channel, event_rx,
    event_tx, fresh_pair, receive_close, receive_event, wakes, write_rx, write_tx,
};
use crate::quiche::conn::{
    next_number, notice, CallbackSlot, CloseNotice, ConnState, DriverEvent, PhpStreamCallbacks,
    StreamId, StreamPriority, StreamSlots, STREAM_BUFFER_SIZE, WRITE_CHANNEL_CAPACITY,
};
use crate::quiche::driver::StreamQuicDriver;
use crate::quiche::error::{BindError, BindErrorKind};
use crate::quiche::lifecycle::{ConnView, ServerView, Step};
use crate::stream::{IncomingBidiStream, IncomingUniStream};
use bytes::Bytes;
use std::collections::hash_map::Entry;
use std::collections::HashMap;
use tokio::sync::mpsc;
use vstd::prelude::*;
use vstd::string::*;

verus! {

broadcast use vstd::std_specs::hash::group_hash_axioms;

/// How many events of all drivers can wait for the server. Generous, so that a script that is slow
/// to take them does not hold up the drivers.
pub const SERVER_EVENT_CHANNEL_CAPACITY: usize = 8192;

/// How many close signals can wait for the server. They have a channel of their own, so that one
/// full of events cannot keep the end of a connection from the server.
pub const CONN_CLOSE_CHANNEL_CAPACITY: usize = 1024;

/// The receiving ends of what the drivers send to the server.
pub struct ServerInbox {
    pub server_event_rx: mpsc::Receiver<(u64, DriverEvent)>,
    pub conn_close_rx: mpsc::Receiver<(u64, bool)>,
}

impl ServerInbox {
    /// What the drivers sent that waits. A connection's end comes only where no event waits, so
    /// that what a driver reported before the end is taken before it.
    pub fn next_event(&mut self) -> (r: Option<ServerEvent>)
        ensures
            match r {
                Some(ServerEvent::Driver(conn_id, ev)) => {
                    &&& event_rx(final(self).server_event_rx) == event_rx(
                        old(self).server_event_rx,
                    ).after((conn_id, ev))
                    &&& final(self).conn_close_rx == old(self).conn_close_rx
                },
                Some(ServerEvent::ConnClosed(conn_id, peer_initiated)) => {
                    &&& event_rx(final(self).server_event_rx) == event_rx(
                        old(self).server_event_rx,
                    ).missing()
                    &&& close_rx(final(self).conn_close_rx) == close_rx(
                        old(self).conn_close_rx,
                    ).after((conn_id, peer_initiated))
                },
                Some(_) => false,
                None => {
                    &&& event_rx(final(self).server_event_rx) == event_rx(
                        old(self).server_event_rx,
                    ).missing()
                    &&& close_rx(final(self).conn_close_rx) == close_rx(
                        old(self).conn_close_rx,
                    ).missing()
                },
            },
    {
        if let Some((conn_id, ev)) = receive_event(&mut self.server_event_rx) {
            return Some(ServerEvent::Driver(conn_id, ev));
        }
        match receive_close(&mut self.conn_close_rx) {
            Some((conn_id, peer_initiated)) => Some(
                ServerEvent::ConnClosed(conn_id, peer_initiated),
            ),
            None => None,
        }
    }
}

/// What can happen to the server.
pub enum ServerEvent {
    /// A driver reported something of its connection.
    Driver(u64, DriverEvent),
    /// A connection ended; the flag tells whether the peer ended it.
    ConnClosed(u64, bool),
    /// A peer connected.
    NewConn { peer_addr: String, priority_recv: mpsc::Receiver<StreamPriority> },
    /// A connection could not be accepted.
    AcceptError,
    /// The script asked for control.
    Timer,
    /// A source of events has ended: no connection, or nothing of a driver, will come any more.
    Exhausted,
}

/// What is to be done.
pub enum ServerAction<C> {
    /// Show the script a bidirectional stream that the peer opened.
    ShowBidi { callback: CallbackSlot<C>, bidi: IncomingBidiStream },
    /// Show the script a unidirectional stream that the peer opened.
    ShowUni { callback: CallbackSlot<C>, uni: IncomingUniStream },
    /// Hand data to the script, then tell the server that this is done.
    Deliver {
        callback: CallbackSlot<C>,
        conn_id: u64,
        stream_id: StreamId,
        data: Bytes,
        fin: bool,
    },
    /// A connection ended: tell the script of its streams, one after the other.
    Close,
    /// Start the driver of a new connection.
    Start(StreamQuicDriver),
    /// Wait for what happens next.
    Wait,
    /// Give control back to the script.
    Exit,
}

/// The next thing to be done about connections that have ended.
pub enum Telling<C> {
    /// Tell the script that a stream of a connection ended.
    Tell(u64, CloseNotice<C>),
    /// There was nothing to tell of a connection any more, and its record is gone.
    Retired(u64),
    /// No connection that has ended is left.
    Done,
}

/// The second slot holds a clone of what the first one holds.
pub open spec fn cloned_slot<C: Clone>(a: CallbackSlot<C>, b: CallbackSlot<C>) -> bool {
    match (a, b) {
        (None, None) => true,
        (Some(x), Some(y)) => cloned(x, y),
        _ => false,
    }
}

/// The callback for a stream's data, if the stream has slots and one is registered in them.
pub open spec fn data_slot<C>(conn: ConnView<C>, stream_id: StreamId) -> CallbackSlot<C> {
    if conn.slots.contains_key(stream_id) {
        conn.slots[stream_id].on_data
    } else {
        None
    }
}

/// The script is shown the bidirectional stream that the peer opened on a connection.
pub open spec fn shows_bidi<C: Clone>(
    conn: ConnView<C>,
    conn_id: u64,
    stream_id: StreamId,
    on_stream: CallbackSlot<C>,
    action: ServerAction<C>,
) -> bool {
    &&& action matches ServerAction::ShowBidi { callback, bidi }
    &&& cloned_slot(on_stream, callback)
    &&& bidi == (IncomingBidiStream {
        conn_id,
        stream_id,
        peer_addr: conn.peer_addr,
        write_tx: conn.handle.write_tx,
        write_notify: conn.handle.write_notify,
        number: conn.next_number,
        conn_handle: conn.handle,
    })
}

/// The script is shown the unidirectional stream that the peer opened on a connection.
pub open spec fn shows_uni<C: Clone>(
    conn: ConnView<C>,
    conn_id: u64,
    stream_id: StreamId,
    on_stream: CallbackSlot<C>,
    action: ServerAction<C>,
) -> bool {
    &&& action matches ServerAction::ShowUni { callback, uni }
    &&& cloned_slot(on_stream, callback)
    &&& uni == (IncomingUniStream {
        conn_id,
        stream_id,
        peer_addr: conn.peer_addr,
        number: conn.next_number,
        conn_handle: conn.handle,
    })
}

/// The script is handed the data that came on a stream.
pub open spec fn delivers<C: Clone>(
    conn: ConnView<C>,
    conn_id: u64,
    stream_id: StreamId,
    data: Bytes,
    fin: bool,
    action: ServerAction<C>,
) -> bool {
    &&& action matches ServerAction::Deliver { callback, conn_id: c, stream_id: s, data: d, fin: f }
    &&& cloned_slot(data_slot(conn, stream_id), callback)
    &&& c == conn_id
    &&& s == stream_id
    &&& d == data
    &&& f == fin
}

/// What a driver reported goes to the script; what comes late, for a connection that has ended, is
/// dropped. A stream that the peer opens gets slots.
pub open spec fn dispatches<C: Clone>(
    was: ServerView<C>,
    conn_id: u64,
    ev: DriverEvent,
    on_stream: CallbackSlot<C>,
    action: ServerAction<C>,
    now: ServerView<C>,
) -> bool {
    if !was.serves(conn_id) {
        action is Wait && now == was
    } else {
        match ev {
            DriverEvent::NewBidi(s) => {
                &&& shows_bidi(was.conns[conn_id], conn_id, s, on_stream, action)
                &&& now == was.take(Step::Open(conn_id, s))
            },
            DriverEvent::NewUni(s) => {
                &&& shows_uni(was.conns[conn_id], conn_id, s, on_stream, action)
                &&& now == was.take(Step::Open(conn_id, s))
            },
            DriverEvent::Data { stream_id, data, fin } => {
                &&& delivers(was.conns[conn_id], conn_id, stream_id, data, fin, action)
                &&& now == was
            },
        }
    }
}

/// A connection's end is to be told to its streams, as the peer's doing or not; that of a
/// connection that is not there, or has ended before, changes nothing.
pub open spec fn ends_conn<C>(
    was: ServerView<C>,
    conn_id: u64,
    peer_initiated: bool,
    action: ServerAction<C>,
    now: ServerView<C>,
) -> bool {
    &&& now == was.take(Step::EndConn(conn_id, peer_initiated))
    &&& if was.serves(conn_id) {
        action is Close
    } else {
        action is Wait
    }
}

/// The record of a connection that has just been accepted, and its driver, which has done nothing
/// yet: what is written through the record's handle reaches the driver.
pub open spec fn new_conn<C>(
    conn: ConnView<C>,
    driver: StreamQuicDriver,
    conn_id: u64,
    peer_addr: String,
    priority_recv: mpsc::Receiver<StreamPriority>,
) -> bool {
    &&& conn.peer_addr == peer_addr
    &&& conn.slots == Map::<StreamId, StreamSlots<C>>::empty()
    &&& conn.next_number == 0
    &&& conn.ending is None
    &&& conn.handle.conn_id == conn_id
    &&& conn.handle.peer_addr == peer_addr
    &&& fresh_pair(
        write_tx(conn.handle.write_tx),
        write_rx(driver.stream_event_recv),
        WRITE_CHANNEL_CAPACITY as nat,
    )
    &&& driver.write_notify == conn.handle.write_notify
    &&& wakes(*driver.write_notify) == 0
    &&& driver.io_worker_buf@ == Seq::new(STREAM_BUFFER_SIZE as nat, |i: int| 0u8)
    &&& driver.wf()
    &&& driver.conn_id == conn_id
    &&& driver.priority_recv == priority_recv
    &&& !driver.established
    &&& driver.reading is None
    &&& driver.seen_streams@ == Set::<StreamId>::empty()
    &&& driver.pending_writes@.dom() == Set::<StreamId>::empty()
    &&& driver.flush@.len() == 0
    &&& driver.read_view().in_order()
}

/// The list of connections of whose streams the script is to be told, once the server is shut
/// down: each connection that had not ended has joined it once, and nothing else has.
pub open spec fn closes_rest<C>(was: ServerView<C>, before: Seq<u64>, after: Seq<u64>) -> bool {
    let added = after.skip(before.len() as int);
    &&& before.len() <= after.len()
    &&& after.take(before.len() as int) == before
    &&& added.no_duplicates()
    &&& forall|c: u64| #[trigger] added.contains(c) <==> was.serves(c)
}

/// The server.
pub struct QuicheServerSocketImpl<C> {
    pub connections: HashMap<u64, ConnState<C>>,
    /// The identifier of the next connection.
    pub id_counter: u64,
    /// What to call when a peer opens a stream.
    pub stream_callback: CallbackSlot<C>,
    /// Cloned into every driver, which tags its events with its connection.
    pub server_event_tx: mpsc::Sender<(u64, DriverEvent)>,
    /// Cloned into every driver, so that the server learns of the end of a connection that had no
    /// streams.
    pub conn_close_tx: mpsc::Sender<(u64, bool)>,
    /// Whether connections are still accepted.
    pub listening: bool,
    /// The connections that have ended and of whose streams the script is still to be told. The
    /// last one is its turn.
    pub closing: Vec<u64>,
}

impl<C> QuicheServerSocketImpl<C> {
    pub open spec fn server_view(&self) -> ServerView<C> {
        ServerView {
            conns: self.connections@.map_values(|c: ConnState<C>| c.conn_view()),
            id_counter: self.id_counter,
        }
    }

    /// The server itself sends nothing through the handles that it clones for its drivers, each
    /// record is that of the connection it is kept under, and no connection that has ended is
    /// forgotten.
    pub open spec fn wf(&self) -> bool {
        &&& event_tx(self.server_event_tx).log.len() == 0
        &&& close_tx(self.conn_close_tx).log.len() == 0
        &&& forall|c: u64| #[trigger]
            self.connections@.contains_key(c) ==> self.connections@[c].open_handle.conn_id == c
                && self.connections@[c].open_handle.peer_addr == self.connections@[c].peer_addr && (
            self.connections@[c].ending is Some ==> self.closing@.contains(c))
    }

    /// The two servers differ in their connections alone.
    pub open spec fn same_ends(&self, other: &Self) -> bool {
        &&& self.stream_callback == other.stream_callback
        &&& self.server_event_tx == other.server_event_tx
        &&& self.conn_close_tx == other.conn_close_tx
    }

    /// A server without connections, and the ends through which its drivers will reach it. The
    /// sockets are opened elsewhere; without any address there is nothing to open.
    pub fn bind(addrs: &[&str], callback: CallbackSlot<C>) -> (r: Result<
        (Self, ServerInbox),
        BindError,
    >)
        ensures
            match r {
                Ok((server, inbox)) => {
                    &&& addrs@.len() > 0
                    &&& server.wf()
                    &&& server.server_view() == (ServerView::<C> {
                        conns: Map::empty(),
                        id_counter: 0,
                    })
                    &&& server.stream_callback == callback
                    &&& server.listening
                    &&& server.closing@.len() == 0
                    &&& fresh_pair(
                        event_tx(server.server_event_tx),
                        event_rx(inbox.server_event_rx),
                        SERVER_EVENT_CHANNEL_CAPACITY as nat,
                    )
                    &&& fresh_pair(
                        close_tx(server.conn_close_tx),
                        close_rx(inbox.conn_close_rx),
                        CONN_CLOSE_CHANNEL_CAPACITY as nat,
                    )
                },
                Err(e) => addrs@.len() == 0 && e.kind == BindErrorKind::InvalidInput && e.message@
                    == "bind requires at least one socket address"@,
            },
    {
        if addrs.len() == 0 {
            return Err(
                BindError {
                    kind: BindErrorKind::InvalidInput,
                    message: "bind requires at least one socket address".to_owned(),
                },
            );
        }
        let (server_event_tx, server_event_rx) = event_channel(SERVER_EVENT_CHANNEL_CAPACITY);
        let (conn_close_tx, conn_close_rx) = close_channel(CONN_CLOSE_CHANNEL_CAPACITY);
        let server = QuicheServerSocketImpl {
            connections: HashMap::new(),
            id_counter: 0,
            stream_callback: callback,
            server_event_tx,
            conn_close_tx,
            listening: true,
            closing: Vec::new(),
        };
        assert(server.server_view().conns =~= Map::<u64, ConnView<C>>::empty());
        Ok((server, ServerInbox { server_event_rx, conn_close_rx }))
    }
}

impl<C: Clone> QuicheServerSocketImpl<C> {
    /// What is done about an event, and the server afterwards. `has_event_fd` tells whether the
    /// script can ask for control.
    pub open spec fn on_tick(
        &self,
        event: ServerEvent,
        has_event_fd: bool,
        r: ServerAction<C>,
        next: &Self,
    ) -> bool {
        &&& match event {
            ServerEvent::Driver(conn_id, ev) => dispatches(
                self.server_view(),
                conn_id,
                ev,
                self.stream_callback,
                r,
                next.server_view(),
            ),
            ServerEvent::ConnClosed(conn_id, peer_initiated) => ends_conn(
                self.server_view(),
                conn_id,
                peer_initiated,
                r,
                next.server_view(),
            ),
            ServerEvent::NewConn { peer_addr, priority_recv } => if self.listening {
                let conn = next.server_view().conns[self.id_counter];
                &&& next.server_view() == self.server_view().take(Step::Accept(conn))
                &&& r matches ServerAction::Start(driver)
                &&& new_conn(conn, driver, self.id_counter, peer_addr, priority_recv)
                &&& driver.event_tx == Some(self.server_event_tx)
                &&& driver.conn_close_tx == self.conn_close_tx
            } else {
                r is Wait && next.server_view() == self.server_view()
            },
            ServerEvent::AcceptError => r is Wait && next.server_view() == self.server_view(),
            ServerEvent::Timer => r is Exit && next.server_view() == self.server_view(),
            ServerEvent::Exhausted => {
                &&& if has_event_fd {
                    r is Wait
                } else {
                    r is Exit
                }
                &&& next.server_view() == self.server_view()
            },
        }
        &&& next.closing@ == (match r {
            ServerAction::Close => self.closing@.push(event->ConnClosed_0),
            _ => self.closing@,
        })
    }

    /// Turns what a driver reported into what the script is to be told. What comes late, for a
    /// connection that has ended, is dropped.
    pub fn dispatch_driver_event(&mut self, conn_id: u64, ev: DriverEvent) -> (r: ServerAction<C>)
        requires
            old(self).wf(),
        ensures
            final(self).wf(),
            final(self).same_ends(old(self)),
            final(self).listening == old(self).listening,
            final(self).closing == old(self).closing,
            dispatches(
                old(self).server_view(),
                conn_id,
                ev,
                old(self).stream_callback,
                r,
                final(self).server_view(),
            ),
    {
        let ghost event = ev;
        let r = match self.connections.entry(conn_id) {
            Entry::Occupied(entry) => {
                let state: &mut ConnState<C> = entry.into_mut();
                if state.ending.is_some() {
                    ServerAction::Wait
                } else {
                    match ev {
                        DriverEvent::NewBidi(stream_id) => {
                            let number: u64 = state.php_stream_callbacks.register(stream_id);
                            let bidi = IncomingBidiStream {
                                conn_id,
                                stream_id,
                                peer_addr: state.peer_addr.clone(),
                                write_tx: clone_sender(&state.open_handle.write_tx),
                                write_notify: clone_notify(&state.open_handle.write_notify),
                                number,
                                conn_handle: state.open_handle.clone(),
                            };
                            ServerAction::ShowBidi { callback: self.stream_callback.clone(), bidi }
                        },
                        DriverEvent::NewUni(stream_id) => {
                            let number: u64 = state.php_stream_callbacks.register(stream_id);
                            let uni = IncomingUniStream {
                                conn_id,
                                stream_id,
                                peer_addr: state.peer_addr.clone(),
                                number,
                                conn_handle: state.open_handle.clone(),
                            };
                            ServerAction::ShowUni { callback: self.stream_callback.clone(), uni }
                        },
                        DriverEvent::Data { stream_id, data, fin } => {
                            let callback: CallbackSlot<C> = match state.php_stream_callbacks.slots.get(
                                &stream_id,
                            ) {
                                Some(slots) => slots.on_data.clone(),
                                None => None,
                            };
                            ServerAction::Deliver { callback, conn_id, stream_id, data, fin }
                        },
                    }
                }
            },
            Entry::Vacant(_) => ServerAction::Wait,
        };
        proof {
            let was = old(self).server_view();
            let now = self.server_view();
            assert(self.connections@.dom() =~= old(self).connections@.dom());
            match event {
                DriverEvent::NewBidi(s) if was.serves(conn_id) => {
                    assert(now.conns =~= was.take(Step::Open(conn_id, s)).conns);
                },
                DriverEvent::NewUni(s) if was.serves(conn_id) => {
                    assert(now.conns =~= was.take(Step::Open(conn_id, s)).conns);
                },
                _ => {
                    assert(now.conns =~= was.conns);
                },
            }
        }
        r
    }

    /// The step after data was handed to the script: where the data was the stream's last, the
    /// peer has ended the stream, and what was registered for that is told. The streams of a
    /// connection that has ended are told of that instead.
    pub fn finish_data(&mut self, conn_id: u64, stream_id: StreamId, fin: bool) -> (r: Option<
        CloseNotice<C>,
    >)
        requires
            old(self).wf(),
        ensures
            final(self).wf(),
            final(self).same_ends(old(self)),
            final(self).listening == old(self).listening,
            final(self).server_view() == (if fin {
                old(self).server_view().take(Step::End(conn_id, stream_id))
            } else {
                old(self).server_view()
            }),
            final(self).closing == old(self).closing,
            r == (if fin && old(self).server_view().serves(conn_id) && old(self).server_view().has_stream(conn_id, stream_id) {
                Some(
                    notice(
                        stream_id,
                        old(self).server_view().conns[conn_id].slots[stream_id],
                        true,
                    ),
                )
            } else {
                None
            }),
            r matches Some(n) ==> n.stream_id == stream_id && n.peer_closed && n.number
                == old(self).connections@[conn_id].php_stream_callbacks.slots@[stream_id].number
                && n.on_close == old(self).connections@[conn_id].php_stream_callbacks.slots@[stream_id].on_close,
    {
        if !fin {
            return None;
        }
        let r: Option<CloseNotice<C>> = match self.connections.entry(conn_id) {
            Entry::Occupied(entry) => {
                let state: &mut ConnState<C> = entry.into_mut();
                if state.ending.is_some() {
                    None
                } else {
                    state.php_stream_callbacks.finish(stream_id, true)
                }
            },
            Entry::Vacant(_) => None,
        };
        proof {
            assert(self.connections@.dom() =~= old(self).connections@.dom());
            assert(self.server_view().conns =~= old(self).server_view().take(
                Step::End(conn_id, stream_id),
            ).conns);
        }
        r
    }

    /// The slots of a connection's streams, for the stream objects that the script holds.
    pub fn callbacks(&mut self, conn_id: u64) -> (r: Option<&mut PhpStreamCallbacks<C>>)
        ensures
            match r {
                Some(callbacks) => {
                    &&& old(self).connections@.contains_key(conn_id)
                    &&& *callbacks == old(self).connections@[conn_id].php_stream_callbacks
                    &&& final(self).connections@ == old(self).connections@.insert(
                        conn_id,
                        ConnState {
                            php_stream_callbacks: *final(callbacks),
                            ..old(self).connections@[conn_id]
                        },
                    )
                },
                None => !old(self).connections@.contains_key(conn_id) && final(self).connections@
                    == old(self).connections@,
            },
            old(self).wf() ==> final(self).wf(),
            final(self).same_ends(old(self)),
            final(self).listening == old(self).listening,
            final(self).closing == old(self).closing,
            final(self).id_counter == old(self).id_counter,
    {
        match self.connections.entry(conn_id) {
            Entry::Occupied(entry) => Some(&mut entry.into_mut().php_stream_callbacks),
            Entry::Vacant(_) => None,
        }
    }

    /// One round of the server's loop: what happened, and what is to be done about it. Where the
    /// script cannot ask for control, it gets control once a source of events has ended.
    pub fn tick(&mut self, event: ServerEvent, has_event_fd: bool) -> (r: ServerAction<C>)
        requires
            old(self).wf(),
        ensures
            final(self).wf(),
            final(self).same_ends(old(self)),
            final(self).listening == old(self).listening,
            old(self).on_tick(event, has_event_fd, r, final(self)),
    {
        match event {
            ServerEvent::Driver(conn_id, ev) => self.dispatch_driver_event(conn_id, ev),
            ServerEvent::ConnClosed(conn_id, peer_initiated) => {
                let r: ServerAction<C> = match self.connections.entry(conn_id) {
                    Entry::Occupied(entry) => {
                        let state: &mut ConnState<C> = entry.into_mut();
                        if state.ending.is_some() {
                            ServerAction::Wait
                        } else {
                            state.ending = Some(peer_initiated);
                            self.closing.push(conn_id);
                            ServerAction::Close
                        }
                    },
                    Entry::Vacant(_) => ServerAction::Wait,
                };
                proof {
                    assert(self.server_view().conns =~= old(self).server_view().take(
                        Step::EndConn(conn_id, peer_initiated),
                    ).conns);
                    if r is Close {
                        let n = old(self).closing@.len() as int;
                        assert(self.closing@[n] == conn_id);
                        lemma_push_contains(old(self).closing@, conn_id);
                    }
                }
                r
            },
            ServerEvent::NewConn { peer_addr, priority_recv } => {
                if !self.listening {
                    return ServerAction::Wait;
                }
                let conn_id: u64 = self.id_counter;
                self.id_counter = next_number(conn_id);
                let (state, driver) = ConnState::build(
                    conn_id,
                    peer_addr,
                    clone_sender(&self.server_event_tx),
                    clone_sender(&self.conn_close_tx),
                    priority_recv,
                );
                self.connections.insert(conn_id, state);
                assert(self.server_view().conns =~= old(self).server_view().take(
                    Step::Accept(state.conn_view()),
                ).conns);
                ServerAction::Start(driver)
            },
            ServerEvent::AcceptError => ServerAction::Wait,
            ServerEvent::Timer => ServerAction::Exit,
            ServerEvent::Exhausted => if has_event_fd {
                ServerAction::Wait
            } else {
                ServerAction::Exit
            },
        }
    }

    /// Shuts the server down: every connection ends, which is to be told to each of its streams,
    /// and no connection is accepted any more.
    pub fn close(&mut self)
        requires
            old(self).wf(),
        ensures
            final(self).wf(),
            final(self).same_ends(old(self)),
            !final(self).listening,
            final(self).server_view() == old(self).server_view().take(Step::Shutdown),
            closes_rest(old(self).server_view(), old(self).closing@, final(self).closing@),
    {
        let ghost all = self.connections@;
        let ghost len = self.closing@.len() as int;
        let mut ids: Vec<u64> = Vec::new();
        for c in it: self.connections.keys()
            invariant
                it.seq().unref().to_set() == self.connections@.dom(),
                it.seq().no_duplicates(),
                ids@ =~= it.seq().take(it.index() as int).unref(),
                it.index() == it.seq().len() ==> ids@ =~= it.seq().unref(),
        {
            ids.push(*c);
        }
        proof {
            assert(ids@.to_set() == all.dom());
            assert(ids@.no_duplicates());
            assert forall|k: int| 0 <= k < ids@.len() implies all.contains_key(
                #[trigger] ids@[k],
            ) by {
                assert(ids@.to_set().contains(ids@[k]));
            }
        }
        proof {
            assert(self.closing@.skip(len) =~= Seq::<u64>::empty());
            assert(self.closing@.take(len) =~= self.closing@);
            assert(ids@.take(0) =~= Seq::<u64>::empty());
        }
        let mut i: usize = 0;
        while i < ids.len()
            invariant
                i <= ids@.len(),
                ids@.to_set() == all.dom(),
                ids@.no_duplicates(),
                self.same_ends(old(self)),
                self.wf(),
                len == old(self).closing@.len() <= self.closing@.len(),
                self.closing@.take(len) == old(self).closing@,
                self.closing@.skip(len).no_duplicates(),
                forall|c: u64| #[trigger]
                    self.closing@.skip(len).contains(c) <==> ids@.take(i as int).contains(c)
                        && all[c].ending is None,
                self.id_counter == old(self).id_counter,
                all == old(self).connections@,
                self.connections@.dom() =~= all.dom(),
                forall|k: int|
                    i <= k < ids@.len() ==> self.connections@[#[trigger] ids@[k]] == all[ids@[k]],
                forall|k: int|
                    0 <= k < i ==> self.connections@[#[trigger] ids@[k]].conn_view()
                        == all[ids@[k]].conn_view().shut(),
            decreases ids@.len() - i,
        {
            let conn_id: u64 = ids[i];
            let ghost before = *self;
            match self.connections.entry(conn_id) {
                Entry::Occupied(entry) => {
                    let state: &mut ConnState<C> = entry.into_mut();
                    if state.ending.is_none() {
                        state.ending = Some(false);
                        self.closing.push(conn_id);
                    }
                },
                Entry::Vacant(_) => {},
            }
            proof {
                assert(ids@.to_set().contains(conn_id));
                let done = ids@.take(i as int);
                let added = before.closing@.skip(len);
                assert(ids@.take(i + 1) =~= done.push(conn_id));
                assert(!done.contains(conn_id));
                lemma_push_contains(done, conn_id);
                if all[conn_id].ending is None {
                    assert(self.closing@ =~= before.closing@.push(conn_id));
                    assert(self.closing@.skip(len) =~= added.push(conn_id));
                    assert(!added.contains(conn_id));
                    assert forall|m: int, n: int|
                        0 <= m < n < added.push(conn_id).len() implies added.push(conn_id)[m]
                        != added.push(conn_id)[n] by {
                        assert(added.contains(added[m]));
                    }
                    assert(self.closing@.take(len) =~= before.closing@.take(len));
                    lemma_push_contains(before.closing@, conn_id);
                    lemma_push_contains(added, conn_id);
                }
            }
            i = i + 1;
        }
        self.listening = false;
        proof {
            assert forall|c: u64| all.contains_key(c) implies self.connections@[c].conn_view()
                == #[trigger] all[c].conn_view().shut() by {
                assert(ids@.to_set().contains(c));
                let k = choose|k: int| 0 <= k < ids@.len() && ids@[k] == c;
                assert(ids@[k] == c);
            }
            assert(ids@.take(ids@.len() as int) =~= ids@);
            assert forall|c: u64| #[trigger] self.closing@.skip(len).contains(c) <==> old(self).server_view().serves(c) by {
                assert(ids@.contains(c) <==> ids@.to_set().contains(c));
            }
            assert(self.server_view().conns =~= old(self).server_view().take(Step::Shutdown).conns);
        }
    }

    /// The next thing to be done about connections that have ended. A stream's callback is looked
    /// up only when its turn comes, so one that the script registers meanwhile is called.
    pub fn next_notice(&mut self) -> (r: Telling<C>)
        requires
            old(self).wf(),
        ensures
            final(self).wf(),
            final(self).same_ends(old(self)),
            final(self).listening == old(self).listening,
            r is Done <==> old(self).closing@.len() == 0,
            match r {
                Telling::Tell(c, n) => {
                    let was = old(self).server_view();
                    &&& was.has_stream(c, n.stream_id)
                    &&& was.conns[c].ending is Some
                    &&& n == notice(
                        n.stream_id,
                        was.conns[c].slots[n.stream_id],
                        was.conns[c].ending->0,
                    )
                    &&& n.on_close == old(self).connections@[c].php_stream_callbacks.slots@[n.stream_id].on_close
                    &&& n.number == old(self).connections@[c].php_stream_callbacks.slots@[n.stream_id].number
                    &&& old(self).connections@[c].ending == Some(n.peer_closed)
                    &&& final(self).server_view() == was.take(Step::Tell(c, n.stream_id))
                    &&& final(self).closing == old(self).closing
                },
                Telling::Retired(c) => {
                    &&& final(self).server_view() == old(self).server_view().take(Step::Retire(c))
                    &&& final(self).server_view().conns.contains_key(c) ==> final(self).server_view().conns[c].ending is None
                    &&& old(self).closing@.len() > 0
                    &&& final(self).closing@ == old(self).closing@.drop_last()
                    &&& c == old(self).closing@.last()
                },
                Telling::Done => {
                    &&& old(self).server_view().settled()
                    &&& final(self).server_view() == old(self).server_view()
                    &&& final(self).closing == old(self).closing
                },
            },
    {
        let len: usize = self.closing.len();
        if len == 0 {
            return Telling::Done;
        }
        let conn_id: u64 = self.closing[len - 1];
        let told: Option<CloseNotice<C>> = match self.connections.entry(conn_id) {
            Entry::Occupied(entry) => {
                let state: &mut ConnState<C> = entry.into_mut();
                match state.ending {
                    Some(peer_closed) => match state.php_stream_callbacks.any_stream() {
                        Some(stream_id) => state.php_stream_callbacks.finish(
                            stream_id,
                            peer_closed,
                        ),
                        None => None,
                    },
                    None => None,
                }
            },
            Entry::Vacant(_) => None,
        };
        match told {
            Some(n) => {
                assert(self.server_view().conns =~= old(self).server_view().take(
                    Step::Tell(conn_id, n.stream_id),
                ).conns);
                Telling::Tell(conn_id, n)
            },
            None => {
                assert(self.connections@ =~= old(self).connections@);
                let over: bool = match self.connections.get(&conn_id) {
                    Some(state) => state.ending.is_some(),
                    None => false,
                };
                if over {
                    self.connections.remove(&conn_id);
                }
                let _ = self.closing.pop();
                proof {
                    assert(self.server_view().conns =~= old(self).server_view().take(
                        Step::Retire(conn_id),
                    ).conns);
                    assert forall|c: u64| #[trigger]
                        self.connections@.contains_key(c) && self.connections@[c].ending is Some
                        implies self.closing@.contains(c) by {
                        assert(old(self).closing@.contains(c));
                        let k = choose|k: int|
                            0 <= k < old(self).closing@.len() && old(self).closing@[k] == c;
                        assert(self.closing@[k] == c);
                    }
                }
                Telling::Retired(conn_id)
            },
        }
    }
}

/// A list with one more item contains that item and what it contained before.
proof fn lemma_push_contains(list: Seq<u64>, item: u64)
    ensures
        forall|c: u64| #[trigger] list.push(item).contains(c) <==> list.contains(c) || c == item,
{
    assert(list.push(item)[list.len() as int] == item);
    assert forall|c: u64| #[trigger] list.push(item).contains(c) <==> list.contains(c) || c
        == item by {
        if list.contains(c) {
            let k = choose|k: int| 0 <= k < list.len() && list[k] == c;
            assert(list.push(item)[k] == c);
        }
    }
}

} // verus!
