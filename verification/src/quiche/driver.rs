//! The driver of one connection: what it reports of the peer's streams, and what it writes to
//! them.
//!
//! The QUIC connection itself stays outside. Each of [`StreamQuicDriver::process_reads`] and
//! [`StreamQuicDriver::process_writes`] is told what the connection answered and says what to ask
//! of it next, until it says to stop.

use crate::channel::{
    close_tx, event_permit, event_tx, priority_rx, receive_priority, receive_write, release_event,
    reserve_event, send_close, send_event, write_rx, Port, SendFailure,
};
use crate::payload::{payload, payload_clone, payload_copy, payload_empty, payload_len, payload_tail};
use crate::quiche::conn::{DriverEvent, StreamId, StreamPriority, StreamWriter};
use crate::quiche::read_order::law_reads_in_order;
use bytes::Bytes;
use std::collections::{HashMap, HashSet, VecDeque};
use std::sync::Arc;
use tokio::sync::mpsc;
use tokio::sync::Notify;
use vstd::prelude::*;
use vstd::slice::slice_subrange;

verus! {

broadcast use vstd::std_specs::hash::group_hash_axioms;

/// The bit of a stream identifier that is clear where the client opened the stream.
const STREAM_ID_INITIATOR_MASK: u64 = 1;

/// The bit of a stream identifier that is clear where the stream is bidirectional.
const STREAM_ID_DIRECTION_MASK: u64 = 2;

/// The client opened this stream.
pub open spec fn client_initiated(stream_id: StreamId) -> bool {
    stream_id % 2 == 0
}

/// Only the side that opened this stream writes to it.
pub open spec fn unidirectional(stream_id: StreamId) -> bool {
    (stream_id / 2) % 2 == 1
}

/// How a stream of the peer is announced.
pub open spec fn announcement(stream_id: StreamId) -> DriverEvent {
    if unidirectional(stream_id) {
        DriverEvent::NewUni(stream_id)
    } else {
        DriverEvent::NewBidi(stream_id)
    }
}

/// What the connection answered while the driver reads.
#[derive(Clone, Copy, PartialEq, Eq, Structural, Debug)]
pub enum ReadEvent {
    /// The connection has something for the driver.
    Start,
    /// The next stream that can be read, if there is one.
    Readable(Option<StreamId>),
    /// The first `n` bytes of the driver's buffer came from the stream that was asked for.
    Received { n: usize, fin: bool },
    /// The stream that was asked for gave nothing.
    RecvFailed,
}

/// What the driver asks of the connection while it reads.
#[derive(Clone, Copy, PartialEq, Eq, Structural, Debug)]
pub enum ReadAction {
    /// Ask for the next stream that can be read.
    Poll,
    /// Read the stream into the driver's buffer.
    Recv(StreamId),
    /// Nothing more can be read now.
    Stop,
}

/// A read under way: the stream, and the place that is reserved for what comes of it.
pub struct Reading {
    pub stream_id: StreamId,
    pub permit: mpsc::OwnedPermit<(u64, DriverEvent)>,
}

/// The state of a driver's reads.
pub struct ReadView {
    pub conn_id: u64,
    /// The streams that were announced and have not ended.
    pub seen: Set<StreamId>,
    /// The stream that is being read.
    pub reading: Option<StreamId>,
    /// What the driver has reported.
    pub log: Seq<(u64, DriverEvent)>,
    /// How often the event channel had no place for the driver.
    pub misses: nat,
}

impl ReadView {
    /// The stream has to be announced before anything is read from it.
    pub open spec fn unannounced(self, stream_id: StreamId) -> bool {
        client_initiated(stream_id) && !self.seen.contains(stream_id)
    }

    /// The state once the stream is announced, where it has to be.
    pub open spec fn announce(self, stream_id: StreamId) -> ReadView {
        if self.unannounced(stream_id) {
            ReadView {
                seen: self.seen.insert(stream_id),
                log: self.log.push((self.conn_id, announcement(stream_id))),
                ..self
            }
        } else {
            self
        }
    }

    /// The state once the event channel had no place.
    pub open spec fn miss(self) -> ReadView {
        ReadView { misses: self.misses + 1, ..self }
    }

    /// What the driver does with a stream that can be read: it announces the stream where it has
    /// to, and reads it. Only where the event channel has no place for one of them does it stop
    /// before that.
    pub open spec fn on_readable(self, stream_id: StreamId, action: ReadAction, next: ReadView) -> bool {
        ||| action == ReadAction::Recv(stream_id) && next == (ReadView {
            reading: Some(stream_id),
            ..self.announce(stream_id)
        })
        ||| action == ReadAction::Stop && (self.unannounced(stream_id) && next == self.miss() || next
            == self.announce(stream_id).miss())
    }

    /// What the driver does with a chunk: it reports the chunk, forgets the stream where that was
    /// its end, and reads on. Only where the event channel has no place for more does it stop.
    pub open spec fn on_received(
        self,
        data: Seq<u8>,
        fin: bool,
        action: ReadAction,
        next: ReadView,
    ) -> bool {
        let stream_id = self.reading->0;
        &&& next.conn_id == self.conn_id
        &&& next.seen == (if fin {
            self.seen.remove(stream_id)
        } else {
            self.seen
        })
        &&& next.log.len() == self.log.len() + 1
        &&& next.log.drop_last() =~= self.log
        &&& reports_data(next.log.last(), self.conn_id, stream_id, data, fin)
        &&& (action == ReadAction::Recv(stream_id) && next.reading == Some(stream_id)
            && next.misses == self.misses || action == ReadAction::Stop && next.reading is None
            && next.misses == self.misses + 1)
    }

    /// The event can come now: a read is under way exactly if the event answers one, and what was
    /// received fits in a buffer of `len` bytes.
    pub open spec fn awaits(self, event: ReadEvent, len: nat) -> bool {
        match event {
            ReadEvent::Start => self.reading is None,
            ReadEvent::Readable(_) => self.reading is None,
            ReadEvent::Received { n, .. } => self.reading is Some && n <= len,
            ReadEvent::RecvFailed => self.reading is Some,
        }
    }

    /// What the driver does on an event, where `buffer` is what its buffer holds.
    pub open spec fn on_event(
        self,
        event: ReadEvent,
        buffer: Seq<u8>,
        action: ReadAction,
        next: ReadView,
    ) -> bool {
        match event {
            ReadEvent::Start => action == ReadAction::Poll && next == self,
            ReadEvent::Readable(None) => action == ReadAction::Stop && next == self,
            ReadEvent::Readable(Some(stream_id)) => self.on_readable(stream_id, action, next),
            ReadEvent::Received { n, fin } => self.on_received(
                buffer.take(n as int),
                fin,
                action,
                next,
            ),
            ReadEvent::RecvFailed => action == ReadAction::Poll && next == (ReadView {
                reading: None,
                ..self
            }),
        }
    }
}

/// The message reports `data` on a stream.
pub open spec fn reports_data(
    message: (u64, DriverEvent),
    conn: u64,
    stream: StreamId,
    content: Seq<u8>,
    last: bool,
) -> bool {
    message.0 == conn && (message.1 matches DriverEvent::Data { stream_id, data, fin } && stream_id
        == stream && payload(data) == content && fin == last)
}

/// What became of a chunk that was handed to the connection.
#[derive(Clone, Copy, PartialEq, Eq, Structural, Debug)]
pub enum SendOutcome {
    /// So many bytes of it were taken.
    Accepted(usize),
    /// The stream takes nothing at present.
    Blocked,
    /// The stream can take nothing.
    Failed,
}

/// What the connection answered while the driver writes.
pub enum WriteEvent {
    /// The connection is ready to be written to.
    Start,
    /// The priority was handed over.
    PrioritySet,
    /// What became of the chunk.
    Sent(SendOutcome),
}

/// What the driver asks of the connection while it writes.
pub enum WriteAction {
    /// Give the stream this priority.
    SetPriority { stream_id: StreamId, urgency: u8, incremental: bool },
    /// Write the chunk to the stream.
    Send { stream_id: StreamId, data: Bytes, fin: bool },
    /// Nothing more can be written now.
    Stop,
}

/// The bytes of an outbound chunk, and whether the stream ends with them.
pub type Chunk = (Seq<u8>, bool);

/// What a queue of outbound chunks holds, next chunk first.
pub open spec fn queue_view(queue: VecDeque<(Bytes, bool)>) -> Seq<Chunk> {
    queue@.map_values(|c: (Bytes, bool)| (payload(c.0), c.1))
}

/// What the queues of the streams hold.
pub open spec fn pending_view(pending: Map<StreamId, VecDeque<(Bytes, bool)>>) -> Map<
    StreamId,
    Seq<Chunk>,
> {
    pending.map_values(|q: VecDeque<(Bytes, bool)>| queue_view(q))
}

/// The chunk that an outbound message stands for.
pub open spec fn message_chunk(message: StreamWriter) -> Chunk {
    (
        match message.1 {
            Some(data) => payload(data),
            None => Seq::<u8>::empty(),
        },
        message.2,
    )
}

/// The queues once a message has joined its stream's queue.
pub open spec fn enqueue(pending: Map<StreamId, Seq<Chunk>>, message: StreamWriter) -> Map<
    StreamId,
    Seq<Chunk>,
> {
    let queue = if pending.contains_key(message.0) {
        pending[message.0]
    } else {
        Seq::<Chunk>::empty()
    };
    pending.insert(message.0, queue.push(message_chunk(message)))
}

/// The queues once messages have joined them one after the other.
pub open spec fn enqueue_all(
    pending: Map<StreamId, Seq<Chunk>>,
    messages: Seq<StreamWriter>,
) -> Map<StreamId, Seq<Chunk>>
    decreases messages.len(),
{
    if messages.len() == 0 {
        pending
    } else {
        enqueue(enqueue_all(pending, messages.drop_last()), messages.last())
    }
}

/// A queue once its first chunk met with `outcome`.
pub open spec fn settle_queue(queue: Seq<Chunk>, outcome: SendOutcome) -> Seq<Chunk> {
    match outcome {
        SendOutcome::Accepted(n) => if n == queue[0].0.len() {
            queue.drop_first()
        } else {
            queue.update(0, (queue[0].0.skip(n as int), queue[0].1))
        },
        SendOutcome::Blocked => queue,
        SendOutcome::Failed => queue.drop_first(),
    }
}

/// The first chunk left the queue, so that the next one can be tried at once.
pub open spec fn settled(queue: Seq<Chunk>, outcome: SendOutcome) -> bool {
    match outcome {
        SendOutcome::Accepted(n) => n == queue[0].0.len(),
        SendOutcome::Blocked => false,
        SendOutcome::Failed => true,
    }
}

/// The state of a driver's writes.
pub struct WriteView {
    /// The chunks that wait, stream by stream. No queue is empty.
    pub pending: Map<StreamId, Seq<Chunk>>,
    /// The streams that are still to be tried in this pass; the last one is being tried.
    pub flush: Seq<StreamId>,
}

impl WriteView {
    pub open spec fn wf(self) -> bool {
        &&& forall|s: StreamId| #[trigger]
            self.pending.contains_key(s) ==> self.pending[s].len() > 0
        &&& self.flush.no_duplicates()
        &&& forall|i: int|
            0 <= i < self.flush.len() ==> self.pending.contains_key(#[trigger] self.flush[i])
    }

    /// The outcome is one that the chunk being tried can meet with.
    pub open spec fn expects(self, outcome: SendOutcome) -> bool {
        &&& self.flush.len() > 0
        &&& outcome matches SendOutcome::Accepted(n) ==> n <= self.pending[self.flush.last()][0].0.len()
    }

    /// The state once the chunk being tried met with `outcome`.
    pub open spec fn on_sent(self, outcome: SendOutcome) -> WriteView {
        let s = self.flush.last();
        let rest = settle_queue(self.pending[s], outcome);
        WriteView {
            pending: if rest.len() == 0 {
                self.pending.remove(s)
            } else {
                self.pending.insert(s, rest)
            },
            flush: if settled(self.pending[s], outcome) && rest.len() > 0 {
                self.flush
            } else {
                self.flush.drop_last()
            },
        }
    }

    /// The action tries the next chunk of this pass, or stops where none is left.
    pub open spec fn tries(self, action: WriteAction) -> bool {
        if self.flush.len() == 0 {
            action is Stop
        } else {
            action matches WriteAction::Send { stream_id, data, fin } && stream_id
                == self.flush.last() && (payload(data), fin) == self.pending[stream_id][0]
        }
    }
}

/// The driver of one connection.
pub struct StreamQuicDriver {
    pub conn_id: u64,
    /// Outbound chunks that the stream objects of this connection sent.
    pub stream_event_recv: mpsc::Receiver<StreamWriter>,
    /// Priority changes. They are applied before the chunks that wait are written.
    pub priority_recv: mpsc::Receiver<StreamPriority>,
    /// The events' way to the server, while no read is under way.
    pub event_tx: Option<mpsc::Sender<(u64, DriverEvent)>>,
    /// The read that is under way, which holds the events' way to the server.
    pub reading: Option<Reading>,
    /// The close signal's way to the server, apart from the events', so that many events cannot
    /// keep a close signal back.
    pub conn_close_tx: mpsc::Sender<(u64, bool)>,
    pub established: bool,
    pub io_worker_buf: Vec<u8>,
    pub write_notify: Arc<Notify>,
    /// Chunks that the connection has not taken yet. A queue for each stream keeps a blocked
    /// stream from holding up the others.
    pub pending_writes: HashMap<u64, VecDeque<(Bytes, bool)>>,
    /// The streams that are still to be tried in the pass under way.
    pub flush: Vec<u64>,
    /// Streams that were announced to the server and have not ended.
    pub seen_streams: HashSet<u64>,
}

impl StreamQuicDriver {
    /// The driver holds its way to the server, with a reserved place exactly while it reads, and
    /// no queue of its is empty.
    pub open spec fn wf(&self) -> bool {
        &&& self.event_tx is Some <==> self.reading is None
        &&& self.write_view().wf()
    }

    /// The driver's end of the event channel.
    pub open spec fn events(&self) -> Port<(u64, DriverEvent)> {
        match self.reading {
            Some(reading) => event_permit(reading.permit),
            None => event_tx(self.event_tx->0),
        }
    }

    pub open spec fn read_view(&self) -> ReadView {
        ReadView {
            conn_id: self.conn_id,
            seen: self.seen_streams@,
            reading: match self.reading {
                Some(reading) => Some(reading.stream_id),
                None => None,
            },
            log: self.events().log,
            misses: self.events().misses,
        }
    }

    pub open spec fn write_view(&self) -> WriteView {
        WriteView { pending: pending_view(self.pending_writes@), flush: self.flush@ }
    }

    /// Nothing but the reads differs.
    pub open spec fn same_but_reads(&self, other: &StreamQuicDriver) -> bool {
        &&& self.conn_id == other.conn_id
        &&& self.stream_event_recv == other.stream_event_recv
        &&& self.priority_recv == other.priority_recv
        &&& self.conn_close_tx == other.conn_close_tx
        &&& self.established == other.established
        &&& self.io_worker_buf == other.io_worker_buf
        &&& self.write_notify == other.write_notify
        &&& self.pending_writes == other.pending_writes
        &&& self.flush == other.flush
        &&& self.events().channel == other.events().channel
        &&& self.events().capacity == other.events().capacity
    }

    /// Asks the event channel for a place for one message.
    fn reserve(&mut self) -> (reserved: Result<
        mpsc::OwnedPermit<(u64, DriverEvent)>,
        mpsc::Sender<(u64, DriverEvent)>,
    >)
        requires
            old(self).event_tx is Some,
        ensures
            *final(self) == (StreamQuicDriver { event_tx: None, ..*old(self) }),
            match reserved {
                Ok(permit) => event_permit(permit) == event_tx(old(self).event_tx->0),
                Err(tx) => event_tx(tx) == event_tx(old(self).event_tx->0).missing(),
            },
    {
        let tx = self.event_tx.take();
        reserve_event(tx.unwrap())
    }

    /// Reads the stream, if there is a place for what it gives; stops where there is none.
    pub fn begin_recv(
        &mut self,
        stream_id: StreamId,
        reserved: Result<
            mpsc::OwnedPermit<(u64, DriverEvent)>,
            mpsc::Sender<(u64, DriverEvent)>,
        >,
    ) -> (action: ReadAction)
        requires
            old(self).event_tx is None,
            old(self).reading is None,
        ensures
            match reserved {
                Ok(permit) => action == ReadAction::Recv(stream_id) && *final(self) == (
                StreamQuicDriver { reading: Some(Reading { stream_id, permit }), ..*old(self) }),
                Err(tx) => action == ReadAction::Stop && *final(self) == (StreamQuicDriver {
                    event_tx: Some(tx),
                    ..*old(self)
                }),
            },
    {
        match reserved {
            Ok(permit) => {
                self.reading = Some(Reading { stream_id, permit });
                ReadAction::Recv(stream_id)
            },
            Err(tx) => {
                self.event_tx = Some(tx);
                ReadAction::Stop
            },
        }
    }

    /// Reports a stream of the peer, if there is a place for the report.
    pub fn announce(
        &mut self,
        stream_id: StreamId,
        reserved: Result<
            mpsc::OwnedPermit<(u64, DriverEvent)>,
            mpsc::Sender<(u64, DriverEvent)>,
        >,
    ) -> (done: bool)
        requires
            old(self).event_tx is None,
            old(self).reading is None,
        ensures
            done == reserved is Ok,
            *final(self) == (StreamQuicDriver {
                event_tx: final(self).event_tx,
                seen_streams: final(self).seen_streams,
                ..*old(self)
            }),
            final(self).event_tx is Some,
            match reserved {
                Ok(permit) => {
                    &&& event_tx(final(self).event_tx->0) == event_permit(permit).after(
                        (old(self).conn_id, announcement(stream_id)),
                    )
                    &&& final(self).seen_streams@ == old(self).seen_streams@.insert(stream_id)
                },
                Err(tx) => {
                    &&& final(self).event_tx == Some(tx)
                    &&& final(self).seen_streams@ == old(self).seen_streams@
                },
            },
    {
        match reserved {
            Ok(permit) => {
                proof {
                    assert((stream_id & 2 == 0) == ((stream_id / 2) % 2 == 0)) by (bit_vector);
                }
                let event: DriverEvent = if stream_id & STREAM_ID_DIRECTION_MASK == 0 {
                    DriverEvent::NewBidi(stream_id)
                } else {
                    DriverEvent::NewUni(stream_id)
                };
                self.event_tx = Some(send_event(permit, (self.conn_id, event)));
                self.seen_streams.insert(stream_id);
                true
            },
            Err(tx) => {
                self.event_tx = Some(tx);
                false
            },
        }
    }

    /// Reads what the connection holds, as far as the event channel has room for it: what finds
    /// no room stays with the connection, whose flow control then holds the peer back.
    pub fn process_reads(&mut self, event: ReadEvent) -> (action: ReadAction)
        requires
            old(self).wf(),
            old(self).read_view().awaits(event, old(self).io_worker_buf@.len()),
        ensures
            final(self).wf(),
            final(self).same_but_reads(old(self)),
            old(self).read_view().on_event(
                event,
                old(self).io_worker_buf@,
                action,
                final(self).read_view(),
            ),
            old(self).read_view().in_order() ==> final(self).read_view().in_order(),
    {
        let action: ReadAction = self.step_reads(event);
        proof {
            let before = old(self).read_view();
            if before.in_order() {
                law_reads_in_order(
                    before,
                    event,
                    old(self).io_worker_buf@,
                    action,
                    self.read_view(),
                );
            }
        }
        action
    }

    /// One step of [`StreamQuicDriver::process_reads`].
    fn step_reads(&mut self, event: ReadEvent) -> (action: ReadAction)
        requires
            old(self).wf(),
            old(self).read_view().awaits(event, old(self).io_worker_buf@.len()),
        ensures
            final(self).wf(),
            final(self).same_but_reads(old(self)),
            old(self).read_view().on_event(
                event,
                old(self).io_worker_buf@,
                action,
                final(self).read_view(),
            ),
    {
        match event {
            ReadEvent::Start => ReadAction::Poll,
            ReadEvent::Readable(None) => ReadAction::Stop,
            ReadEvent::Readable(Some(stream_id)) => {
                proof {
                    assert((stream_id & 1 == 0) == (stream_id % 2 == 0)) by (bit_vector);
                }
                let from_client: bool = stream_id & STREAM_ID_INITIATOR_MASK == 0;
                if from_client && !self.seen_streams.contains(&stream_id) {
                    let reserved = self.reserve();
                    if !self.announce(stream_id, reserved) {
                        return ReadAction::Stop;
                    }
                }
                let reserved = self.reserve();
                self.begin_recv(stream_id, reserved)
            },
            ReadEvent::Received { n, fin } => match self.reading.take() {
                Some(reading) => {
                    let stream_id: StreamId = reading.stream_id;
                    let data: Bytes = payload_copy(
                        slice_subrange(self.io_worker_buf.as_slice(), 0, n),
                    );
                    let message = (self.conn_id, DriverEvent::Data { stream_id, data, fin });
                    self.event_tx = Some(send_event(reading.permit, message));
                    if fin {
                        self.seen_streams.remove(&stream_id);
                    }
                    let reserved = self.reserve();
                    self.begin_recv(stream_id, reserved)
                },
                None => ReadAction::Stop,
            },
            ReadEvent::RecvFailed => match self.reading.take() {
                Some(reading) => {
                    self.event_tx = Some(release_event(reading.permit));
                    ReadAction::Poll
                },
                None => ReadAction::Stop,
            },
        }
    }

    /// Nothing but the writes differs.
    pub open spec fn same_but_writes(&self, other: &StreamQuicDriver) -> bool {
        &&& self.conn_id == other.conn_id
        &&& self.event_tx == other.event_tx
        &&& self.reading == other.reading
        &&& self.conn_close_tx == other.conn_close_tx
        &&& self.established == other.established
        &&& self.io_worker_buf == other.io_worker_buf
        &&& self.write_notify == other.write_notify
        &&& self.seen_streams == other.seen_streams
    }

    /// Adds an outbound message to its stream's queue. A message without data counts as an empty
    /// chunk.
    pub fn enqueue_write(&mut self, message: StreamWriter)
        requires
            old(self).wf(),
        ensures
            final(self).wf(),
            final(self).same_but_writes(old(self)),
            final(self).stream_event_recv == old(self).stream_event_recv,
            final(self).priority_recv == old(self).priority_recv,
            final(self).flush == old(self).flush,
            final(self).write_view() == (WriteView {
                pending: enqueue(old(self).write_view().pending, message),
                ..old(self).write_view()
            }),
    {
        let (stream_id, data, fin) = message;
        let bytes: Bytes = match data {
            Some(bytes) => bytes,
            None => payload_empty(),
        };
        let ghost chunk = (bytes, fin);
        let mut queue: VecDeque<(Bytes, bool)> = match self.pending_writes.remove(&stream_id) {
            Some(queue) => queue,
            None => VecDeque::new(),
        };
        let ghost before = queue;
        queue.push_back((bytes, fin));
        proof {
            assert(queue_view(queue) =~= queue_view(before).push(message_chunk(message)));
        }
        self.pending_writes.insert(stream_id, queue);
        proof {
            let pending = old(self).write_view().pending;
            assert(self.write_view().pending =~= enqueue(pending, message)) by {
                assert(queue_view(before) =~= (if pending.contains_key(stream_id) {
                    pending[stream_id]
                } else {
                    Seq::<Chunk>::empty()
                }));
            }
        }
    }

    /// Takes the outbound messages that wait into the queues.
    fn drain_writes(&mut self)
        requires
            old(self).wf(),
        ensures
            final(self).wf(),
            final(self).same_but_writes(old(self)),
            final(self).priority_recv == old(self).priority_recv,
            final(self).flush == old(self).flush,
            final(self).drained(old(self)),
            final(self).ran_dry(old(self)),
    {
        let ghost log = write_rx(self.stream_event_recv).log;
        // One pass ends even if messages never stop coming.
        let mut budget: u64 = u64::MAX;
        proof {
            assert(log.skip(log.len() as int) =~= Seq::<StreamWriter>::empty());
        }
        while budget > 0
            invariant
                self.wf(),
                self.same_but_writes(old(self)),
                self.priority_recv == old(self).priority_recv,
                self.flush == old(self).flush,
                log == write_rx(old(self).stream_event_recv).log,
                self.drained(old(self)),
                write_rx(self.stream_event_recv).misses == write_rx(
                    old(self).stream_event_recv,
                ).misses,
                write_rx(self.stream_event_recv).log.len() == log.len() + (u64::MAX - budget),
            decreases budget,
        {
            let ghost now = write_rx(self.stream_event_recv).log;
            match receive_write(&mut self.stream_event_recv) {
                Some(message) => {
                    proof {
                        let next = write_rx(self.stream_event_recv).log;
                        assert(next.skip(log.len() as int).drop_last() =~= now.skip(log.len() as int));
                        assert(next.take(log.len() as int) =~= now.take(log.len() as int));
                    }
                    self.enqueue_write(message);
                },
                None => {
                    return ;
                },
            }
            budget = budget - 1;
        }
    }

    /// What was received since `before` has joined the queues, in the order in which it came.
    pub open spec fn drained(&self, before: &StreamQuicDriver) -> bool {
        let old_port = write_rx(before.stream_event_recv);
        let new_port = write_rx(self.stream_event_recv);
        &&& new_port.channel == old_port.channel
        &&& new_port.capacity == old_port.capacity
        &&& old_port.log.len() <= new_port.log.len()
        &&& new_port.log.take(old_port.log.len() as int) =~= old_port.log
        &&& self.write_view().pending == enqueue_all(
            before.write_view().pending,
            new_port.log.skip(old_port.log.len() as int),
        )
    }

    /// Since `before`, messages were taken until none waited, or as many of them as one pass takes.
    pub open spec fn ran_dry(&self, before: &StreamQuicDriver) -> bool {
        let old_port = write_rx(before.stream_event_recv);
        let new_port = write_rx(self.stream_event_recv);
        ||| new_port.misses == old_port.misses + 1
        ||| new_port.log.len() == old_port.log.len() + u64::MAX
    }

    /// Lists the streams whose chunks wait, in no particular order.
    fn list_pending(&mut self)
        requires
            old(self).wf(),
        ensures
            final(self).wf(),
            *final(self) == (StreamQuicDriver { flush: final(self).flush, ..*old(self) }),
            final(self).flush@.to_set() == old(self).pending_writes@.dom(),
    {
        let mut flush: Vec<u64> = Vec::new();
        for s in it: self.pending_writes.keys()
            invariant
                it.seq().unref().to_set() == self.pending_writes@.dom(),
                it.seq().no_duplicates(),
                flush@ =~= it.seq().take(it.index() as int).unref(),
                it.index() == it.seq().len() ==> flush@ =~= it.seq().unref(),
        {
            flush.push(*s);
        }
        proof {
            assert(flush@.to_set() == self.pending_writes@.dom());
            assert(flush@.no_duplicates());
        }
        self.flush = flush;
        proof {
            let view = self.write_view();
            assert(view.pending == old(self).write_view().pending);
            assert forall|i: int| 0 <= i < view.flush.len() implies view.pending.contains_key(
                #[trigger] view.flush[i],
            ) by {
                assert(self.flush@.to_set().contains(self.flush@[i]));
            }
        }
    }

    /// Tries the next chunk of this pass.
    fn next_send(&self) -> (action: WriteAction)
        requires
            self.wf(),
        ensures
            self.write_view().tries(action),
    {
        let len: usize = self.flush.len();
        if len == 0 {
            return WriteAction::Stop;
        }
        let stream_id: u64 = self.flush[len - 1];
        proof {
            assert(self.write_view().pending.contains_key(self.flush@[len - 1]));
        }
        match self.pending_writes.get(&stream_id) {
            Some(queue) => {
                let first: &(Bytes, bool) = &queue[0];
                WriteAction::Send { stream_id, data: payload_clone(&first.0), fin: first.1 }
            },
            None => WriteAction::Stop,
        }
    }

    /// Takes note of what became of the chunk that was tried.
    fn on_sent(&mut self, outcome: SendOutcome)
        requires
            old(self).wf(),
            old(self).write_view().expects(outcome),
        ensures
            final(self).wf(),
            final(self).same_but_writes(old(self)),
            final(self).stream_event_recv == old(self).stream_event_recv,
            final(self).priority_recv == old(self).priority_recv,
            final(self).write_view() == old(self).write_view().on_sent(outcome),
    {
        let ghost view = self.write_view();
        let len: usize = self.flush.len();
        let stream_id: u64 = self.flush[len - 1];
        proof {
            assert(view.pending.contains_key(self.flush@[len - 1]));
        }
        let mut queue: VecDeque<(Bytes, bool)> = match self.pending_writes.remove(&stream_id) {
            Some(queue) => queue,
            None => VecDeque::new(),
        };
        let ghost before = queue_view(queue);
        let taken: bool = match outcome {
            SendOutcome::Accepted(n) => {
                match queue.pop_front() {
                    Some((data, fin)) => {
                        if n == payload_len(&data) {
                            true
                        } else {
                            queue.push_front((payload_tail(&data, n), fin));
                            false
                        }
                    },
                    None => false,
                }
            },
            SendOutcome::Blocked => false,
            SendOutcome::Failed => {
                let _ = queue.pop_front();
                true
            },
        };
        proof {
            assert(queue_view(queue) =~= settle_queue(before, outcome));
        }
        let more: bool = queue.len() > 0;
        if more {
            self.pending_writes.insert(stream_id, queue);
        }
        if !(taken && more) {
            let _ = self.flush.pop();
        }
        proof {
            assert(self.write_view().pending =~= view.on_sent(outcome).pending);
            assert(self.write_view().flush =~= view.on_sent(outcome).flush);
        }
    }

    /// Applies a priority change that was received. Where there is none left, the messages that
    /// wait join the queues and a pass over all queues begins.
    pub fn begin_writes(&mut self, received: Option<StreamPriority>) -> (action: WriteAction)
        requires
            old(self).wf(),
        ensures
            final(self).wf(),
            match received {
                Some((stream_id, urgency, incremental)) => {
                    &&& action == (WriteAction::SetPriority { stream_id, urgency, incremental })
                    &&& *final(self) == *old(self)
                },
                None => {
                    &&& final(self).same_but_writes(old(self))
                    &&& final(self).priority_recv == old(self).priority_recv
                    &&& final(self).drained(old(self))
                    &&& final(self).ran_dry(old(self))
                    &&& final(self).write_view().flush.to_set()
                        == final(self).write_view().pending.dom()
                    &&& final(self).write_view().tries(action)
                },
            },
    {
        if let Some((stream_id, urgency, incremental)) = received {
            return WriteAction::SetPriority { stream_id, urgency, incremental };
        }
        self.drain_writes();
        self.list_pending();
        proof {
            assert(self.write_view().pending.dom() =~= self.pending_writes@.dom());
        }
        self.next_send()
    }

    /// Writes what waits: first the priority changes, then, stream by stream, the chunks, as far
    /// as the connection takes them. A stream that takes no more is left for the next pass; the
    /// others go on.
    pub fn process_writes(&mut self, event: WriteEvent) -> (action: WriteAction)
        requires
            old(self).wf(),
            event matches WriteEvent::Sent(outcome) ==> old(self).write_view().expects(outcome),
        ensures
            final(self).wf(),
            final(self).same_but_writes(old(self)),
            match event {
                WriteEvent::Sent(outcome) => {
                    &&& final(self).stream_event_recv == old(self).stream_event_recv
                    &&& final(self).priority_recv == old(self).priority_recv
                    &&& final(self).write_view() == old(self).write_view().on_sent(outcome)
                    &&& final(self).write_view().tries(action)
                },
                _ => match action {
                    WriteAction::SetPriority { stream_id, urgency, incremental } => {
                        &&& final(self).stream_event_recv == old(self).stream_event_recv
                        &&& final(self).write_view() == old(self).write_view()
                        &&& priority_rx(final(self).priority_recv) == priority_rx(
                            old(self).priority_recv,
                        ).after((stream_id, urgency, incremental))
                    },
                    _ => {
                        &&& priority_rx(final(self).priority_recv) == priority_rx(
                            old(self).priority_recv,
                        ).missing()
                        &&& final(self).drained(old(self))
                        &&& final(self).ran_dry(old(self))
                        &&& final(self).write_view().flush.to_set()
                            == final(self).write_view().pending.dom()
                        &&& final(self).write_view().tries(action)
                    },
                },
            },
    {
        match event {
            WriteEvent::Sent(outcome) => {
                self.on_sent(outcome);
                self.next_send()
            },
            _ => {
                let received: Option<StreamPriority> = receive_priority(&mut self.priority_recv);
                self.begin_writes(received)
            },
        }
    }

    /// The handshake is complete.
    pub fn on_conn_established(&mut self)
        ensures
            *final(self) == (StreamQuicDriver { established: true, ..*old(self) }),
    {
        self.established = true;
    }

    /// The driver reads and writes once the handshake is complete.
    pub fn should_act(&self) -> (r: bool)
        ensures
            r == self.established,
    {
        self.established
    }

    /// The buffer that the connection reads streams into.
    pub fn buffer(&mut self) -> (r: &mut Vec<u8>)
        ensures
            *r == old(self).io_worker_buf,
            *final(self) == (StreamQuicDriver { io_worker_buf: *final(r), ..*old(self) }),
    {
        &mut self.io_worker_buf
    }

    /// Signals the end of the connection to the server. The peer ended it if it sent an error, or
    /// if nothing came from it for so long that the connection timed out; any other end counts as
    /// the server's doing.
    pub fn on_conn_close(&mut self, peer_error: bool, timed_out: bool) -> (r: Result<
        (),
        SendFailure,
    >)
        ensures
            *final(self) == (StreamQuicDriver {
                conn_close_tx: final(self).conn_close_tx,
                ..*old(self)
            }),
            close_tx(final(self).conn_close_tx) == (match r {
                Ok(()) => close_tx(old(self).conn_close_tx).after(
                    (old(self).conn_id, peer_error || timed_out),
                ),
                Err(failure) => close_tx(old(self).conn_close_tx).refusing(
                    (old(self).conn_id, peer_error || timed_out),
                    failure,
                ),
            }),
    {
        send_close(&mut self.conn_close_tx, (self.conn_id, peer_error || timed_out))
    }
}

} // verus!
