//! What the server keeps of a connection.

use crate::channel::{
    clone_notify, clone_sender, event_tx, fresh_pair, new_notify, wakes, write_channel, write_rx,
    write_tx,
};
use crate::php::{PhpException, PhpValue};
use crate::quiche::driver::StreamQuicDriver;
use crate::stream::{install_slot, installs};
use bytes::Bytes;
use std::collections::{HashMap, HashSet};
use std::sync::Arc;
use tokio::sync::mpsc;
use tokio::sync::Notify;
use vstd::prelude::*;

verus! {

broadcast use vstd::std_specs::hash::group_hash_axioms;

/// The identifier of a QUIC stream.
pub type StreamId = u64;

pub type StreamData = Option<Bytes>;

pub type StreamFin = bool;

/// An outbound chunk: the stream, what to write on it, and whether the stream ends there.
pub type StreamWriter = (StreamId, StreamData, StreamFin);

/// An inbound chunk: the data, whether the stream ends there, and whether the connection did.
pub type StreamReader = (StreamData, StreamFin, bool);

/// A change of a stream's priority: the stream, its urgency, and whether it may be interleaved.
pub type StreamPriority = (StreamId, u8, bool);

/// A callback of the script, once it has registered one.
pub type CallbackSlot<C> = Option<C>;

/// How many bytes a driver reads at once.
pub const STREAM_BUFFER_SIZE: usize = 65536;

/// How many outbound chunks of a connection can wait for its driver.
pub const WRITE_CHANNEL_CAPACITY: usize = 256;

/// The callbacks of one stream. A stream object finds its slots again by their number: slots that
/// were replaced have another one.
#[derive(Debug)]
pub struct StreamSlots<C> {
    pub number: u64,
    pub on_data: CallbackSlot<C>,
    pub on_close: CallbackSlot<C>,
}

/// The slots of the streams of one connection.
#[derive(Debug)]
pub struct PhpStreamCallbacks<C> {
    pub slots: HashMap<StreamId, StreamSlots<C>>,
    /// The number of the next slots.
    pub next_number: u64,
}

/// The number that follows `number`.
pub open spec fn number_after(number: u64) -> u64 {
    if number == u64::MAX {
        0
    } else {
        (number + 1) as u64
    }
}

/// The number that follows `number`.
pub fn next_number(number: u64) -> (r: u64)
    ensures
        r == number_after(number),
{
    if number == u64::MAX {
        0
    } else {
        number + 1
    }
}

/// What is to be told at the end of a stream: to whom, and whether the peer ended it.
#[derive(Debug)]
pub struct CloseNotice<C> {
    pub stream_id: StreamId,
    pub number: u64,
    pub on_close: CallbackSlot<C>,
    pub peer_closed: bool,
}

/// The notice that a stream with these slots gets.
pub open spec fn notice<C>(stream_id: StreamId, slots: StreamSlots<C>, peer_closed: bool) -> CloseNotice<
    C,
> {
    CloseNotice { stream_id, number: slots.number, on_close: slots.on_close, peer_closed }
}

/// Slots in which no callback is registered yet.
pub fn make_slot_pair<C>() -> (r: (CallbackSlot<C>, CallbackSlot<C>))
    ensures
        r.0 is None,
        r.1 is None,
{
    (None, None)
}

impl<C> PhpStreamCallbacks<C> {
    /// The slots, stream by stream.
    pub open spec fn view(&self) -> Map<StreamId, StreamSlots<C>> {
        self.slots@
    }

    /// The state once a stream was given empty slots of its own, in place of any it had.
    pub open spec fn registered(&self, stream_id: StreamId, next: &PhpStreamCallbacks<C>) -> bool {
        &&& next@ == self@.insert(
            stream_id,
            StreamSlots { number: self.next_number, on_data: None, on_close: None },
        )
        &&& next.next_number == number_after(self.next_number)
    }

    /// These are the slots that the stream has now.
    pub open spec fn current(&self, stream_id: StreamId, number: u64) -> bool {
        self@.contains_key(stream_id) && self@[stream_id].number == number
    }

    /// No stream has slots.
    pub fn new() -> (r: Self)
        ensures
            r@ == Map::<StreamId, StreamSlots<C>>::empty(),
            r.next_number == 0,
    {
        PhpStreamCallbacks { slots: HashMap::new(), next_number: 0 }
    }

    /// Gives a stream empty slots, in place of any it had, and tells their number.
    pub fn register(&mut self, stream_id: StreamId) -> (number: u64)
        ensures
            number == old(self).next_number,
            old(self).registered(stream_id, final(self)),
    {
        let (on_data, on_close) = make_slot_pair();
        let number: u64 = self.next_number;
        self.slots.insert(stream_id, StreamSlots { number, on_data, on_close });
        self.next_number = next_number(number);
        number
    }

    /// Registers what to call with the data of a stream. Slots that are no longer the stream's
    /// keep nothing.
    pub fn install_on_data(&mut self, stream_id: StreamId, number: u64, callback: PhpValue<C>) -> (r:
        Result<(), PhpException>)
        ensures
            installs(callback, "setOnData"@, r),
            final(self).next_number == old(self).next_number,
            final(self)@ == (if r is Ok && old(self).current(stream_id, number) {
                old(self)@.insert(
                    stream_id,
                    StreamSlots { on_data: Some(callback.value), ..old(self)@[stream_id] },
                )
            } else {
                old(self)@
            }),
    {
        let mut unused: CallbackSlot<C> = None;
        let r: Result<(), PhpException> = match self.slots.remove(&stream_id) {
            Some(slots) => {
                let mut slots = slots;
                let r: Result<(), PhpException> = if slots.number == number {
                    install_slot(&mut slots.on_data, callback, "setOnData")
                } else {
                    install_slot(&mut unused, callback, "setOnData")
                };
                self.slots.insert(stream_id, slots);
                r
            },
            None => install_slot(&mut unused, callback, "setOnData"),
        };
        assert(self@ =~= (if r is Ok && old(self).current(stream_id, number) {
            old(self)@.insert(
                stream_id,
                StreamSlots { on_data: Some(callback.value), ..old(self)@[stream_id] },
            )
        } else {
            old(self)@
        }));
        r
    }

    /// Registers what to call at the end of a stream. Slots that are no longer the stream's
    /// keep nothing.
    pub fn install_on_close(&mut self, stream_id: StreamId, number: u64, callback: PhpValue<C>) -> (r:
        Result<(), PhpException>)
        ensures
            installs(callback, "setOnClose"@, r),
            final(self).next_number == old(self).next_number,
            final(self)@ == (if r is Ok && old(self).current(stream_id, number) {
                old(self)@.insert(
                    stream_id,
                    StreamSlots { on_close: Some(callback.value), ..old(self)@[stream_id] },
                )
            } else {
                old(self)@
            }),
    {
        let mut unused: CallbackSlot<C> = None;
        let r: Result<(), PhpException> = match self.slots.remove(&stream_id) {
            Some(slots) => {
                let mut slots = slots;
                let r: Result<(), PhpException> = if slots.number == number {
                    install_slot(&mut slots.on_close, callback, "setOnClose")
                } else {
                    install_slot(&mut unused, callback, "setOnClose")
                };
                self.slots.insert(stream_id, slots);
                r
            },
            None => install_slot(&mut unused, callback, "setOnClose"),
        };
        assert(self@ =~= (if r is Ok && old(self).current(stream_id, number) {
            old(self)@.insert(
                stream_id,
                StreamSlots { on_close: Some(callback.value), ..old(self)@[stream_id] },
            )
        } else {
            old(self)@
        }));
        r
    }

    /// Ends a stream: it has slots no more, and what was registered for its end is told.
    pub fn finish(&mut self, stream_id: StreamId, peer_closed: bool) -> (r: Option<CloseNotice<C>>)
        ensures
            final(self).next_number == old(self).next_number,
            final(self)@ == old(self)@.remove(stream_id),
            r == (if old(self)@.contains_key(stream_id) {
                Some(notice(stream_id, old(self)@[stream_id], peer_closed))
            } else {
                None
            }),
            r is Some <==> old(self)@.contains_key(stream_id),
            r matches Some(n) ==> n.stream_id == stream_id && n.number
                == old(self)@[stream_id].number && n.on_close == old(self)@[stream_id].on_close
                && n.peer_closed == peer_closed,
    {
        match self.slots.remove(&stream_id) {
            Some(slots) => Some(
                CloseNotice {
                    stream_id,
                    number: slots.number,
                    on_close: slots.on_close,
                    peer_closed,
                },
            ),
            None => None,
        }
    }

    /// Some stream that has slots, if any has.
    pub fn any_stream(&self) -> (r: Option<StreamId>)
        ensures
            match r {
                Some(s) => self@.contains_key(s),
                None => self@ == Map::<StreamId, StreamSlots<C>>::empty(),
            },
    {
        for s in it: self.slots.keys()
            invariant
                it.seq().unref().to_set() == self.slots@.dom(),
                it.index() == 0,
        {
            proof {
                let all = it.seq().unref();
                assert(all[0] == *s);
                assert(all.to_set().contains(*s));
            }
            return Some(*s);
        }
        assert(self@ =~= Map::<StreamId, StreamSlots<C>>::empty());
        None
    }
}

/// What a stream object holds of its connection, so that it can open streams on it.
pub struct ConnOpenHandle {
    pub conn_id: u64,
    pub peer_addr: String,
    pub write_tx: mpsc::Sender<StreamWriter>,
    pub write_notify: Arc<Notify>,
}

impl Clone for ConnOpenHandle {
    /// A second handle on the same connection.
    fn clone(&self) -> (r: Self)
        ensures
            r == *self,
    {
        ConnOpenHandle {
            conn_id: self.conn_id,
            peer_addr: self.peer_addr.clone(),
            write_tx: clone_sender(&self.write_tx),
            write_notify: clone_notify(&self.write_notify),
        }
    }
}

impl ConnOpenHandle {
    /// Gives slots to a bidirectional stream that the server opens. What the peer answers on it
    /// finds the slots by the stream's identifier.
    pub fn prepare_bidi_stream<C>(
        &self,
        callbacks: &mut PhpStreamCallbacks<C>,
        stream_id: StreamId,
    ) -> (r: (mpsc::Sender<StreamWriter>, Arc<Notify>, u64))
        ensures
            r.0 == self.write_tx,
            r.1 == self.write_notify,
            r.2 == old(callbacks).next_number,
            old(callbacks).registered(stream_id, final(callbacks)),
    {
        let number: u64 = callbacks.register(stream_id);
        (clone_sender(&self.write_tx), clone_notify(&self.write_notify), number)
    }

    /// Gives slots to a unidirectional stream that the server opens. The peer sends nothing on
    /// it, so the slot for data stays unused.
    pub fn prepare_uni_stream<C>(
        &self,
        callbacks: &mut PhpStreamCallbacks<C>,
        stream_id: StreamId,
    ) -> (r: (mpsc::Sender<StreamWriter>, Arc<Notify>, u64))
        ensures
            r.0 == self.write_tx,
            r.1 == self.write_notify,
            r.2 == old(callbacks).next_number,
            old(callbacks).registered(stream_id, final(callbacks)),
    {
        let number: u64 = callbacks.register(stream_id);
        (clone_sender(&self.write_tx), clone_notify(&self.write_notify), number)
    }
}

/// What a connection's driver reports to the server.
#[derive(Debug)]
pub enum DriverEvent {
    /// The remote peer opened a new bidirectional stream.
    NewBidi(StreamId),
    /// The remote peer opened a new unidirectional stream.
    NewUni(StreamId),
    /// A data chunk arrived on `stream_id`.
    Data { stream_id: StreamId, data: Bytes, fin: bool },
}

/// What the server keeps of a connection.
pub struct ConnState<C> {
    pub peer_addr: String,
    pub php_stream_callbacks: PhpStreamCallbacks<C>,
    pub open_handle: ConnOpenHandle,
    /// Whether the peer ended the connection, once it has ended. Its record stays until its end
    /// was told to each of its streams.
    pub ending: Option<bool>,
}

impl<C> ConnState<C> {
    /// Makes the record of a connection and the driver that goes with it. The driver reports to
    /// the server through `server_event_tx` and signals the connection's end through
    /// `conn_close_tx`; what stream objects write through the record's handle reaches the driver.
    pub fn build(
        conn_id: u64,
        peer_addr: String,
        server_event_tx: mpsc::Sender<(u64, DriverEvent)>,
        conn_close_tx: mpsc::Sender<(u64, bool)>,
        priority_recv: mpsc::Receiver<StreamPriority>,
    ) -> (r: (ConnState<C>, StreamQuicDriver))
        ensures
            r.0.peer_addr == peer_addr,
            r.0.php_stream_callbacks@ == Map::<StreamId, StreamSlots<C>>::empty(),
            r.0.php_stream_callbacks.next_number == 0,
            r.0.open_handle.conn_id == conn_id,
            r.0.open_handle.peer_addr == peer_addr,
            r.0.ending is None,
            r.1.wf(),
            r.1.conn_id == conn_id,
            r.1.event_tx == Some(server_event_tx),
            r.1.reading is None,
            r.1.conn_close_tx == conn_close_tx,
            r.1.priority_recv == priority_recv,
            !r.1.established,
            r.1.io_worker_buf@ == Seq::new(STREAM_BUFFER_SIZE as nat, |i: int| 0u8),
            r.1.pending_writes@.dom() == Set::<StreamId>::empty(),
            r.1.flush@.len() == 0,
            r.1.seen_streams@ == Set::<StreamId>::empty(),
            fresh_pair(
                write_tx(r.0.open_handle.write_tx),
                write_rx(r.1.stream_event_recv),
                WRITE_CHANNEL_CAPACITY as nat,
            ),
            r.1.write_notify == r.0.open_handle.write_notify,
            wakes(*r.1.write_notify) == 0,
            event_tx(server_event_tx).log.len() == 0 ==> r.1.read_view().in_order(),
    {
        let (write_tx, stream_event_recv) = write_channel(WRITE_CHANNEL_CAPACITY);
        let write_notify: Arc<Notify> = Arc::new(new_notify());
        let open_handle = ConnOpenHandle {
            conn_id,
            peer_addr: peer_addr.clone(),
            write_tx,
            write_notify: clone_notify(&write_notify),
        };
        let driver = StreamQuicDriver {
            conn_id,
            stream_event_recv,
            priority_recv,
            event_tx: Some(server_event_tx),
            reading: None,
            conn_close_tx,
            established: false,
            io_worker_buf: vec![0u8; STREAM_BUFFER_SIZE],
            write_notify,
            pending_writes: HashMap::new(),
            flush: Vec::new(),
            seen_streams: HashSet::new(),
        };
        let state = ConnState {
            peer_addr,
            php_stream_callbacks: PhpStreamCallbacks::new(),
            open_handle,
            ending: None,
        };
        (state, driver)
    }
}

/// What is told at the end of a stream goes to the callback in the slot for its end, whatever the
/// slot for data holds, with the flag that was given.
pub proof fn law_notice_holds_the_callback<C>(
    stream_id: StreamId,
    slots: StreamSlots<C>,
    peer_closed: bool,
)
    ensures
        notice(stream_id, slots, peer_closed).stream_id == stream_id,
        notice(stream_id, slots, peer_closed).number == slots.number,
        notice(stream_id, slots, peer_closed).on_close == slots.on_close,
        notice(stream_id, slots, peer_closed).peer_closed == peer_closed,
{
}

/// New slots are empty and bear the next number; no other stream's slots change.
pub proof fn law_new_slots_are_empty<C>(
    before: PhpStreamCallbacks<C>,
    s: StreamId,
    next: PhpStreamCallbacks<C>,
    t: StreamId,
)
    requires
        before.registered(s, &next),
    ensures
        next.slots@.contains_key(s),
        next.slots@[s].on_data is None,
        next.slots@[s].on_close is None,
        next.slots@[s].number == before.next_number,
        next.next_number as int == (before.next_number + 1) % 0x1_0000_0000_0000_0000,
        t != s ==> (next.slots@.contains_key(t) <==> before.slots@.contains_key(t)),
        t != s && before.slots@.contains_key(t) ==> next.slots@[t] == before.slots@[t],
{
}

/// An object's slots are the stream's exactly if the stream has slots of that number.
pub proof fn law_slots_go_by_number<C>(callbacks: PhpStreamCallbacks<C>, s: StreamId, number: u64)
    ensures
        callbacks.current(s, number) <==> callbacks.slots@.contains_key(s)
            && callbacks.slots@[s].number == number,
{
}

} // verus!
