//! The objects through which a script uses a stream.

use crate::channel::{send_write, wake, wakes, write_tx, Port, SendFailure};
use crate::payload::{payload, payload_copy, payload_empty};
use crate::php::{PhpClass, PhpException, PhpValue};
use crate::quiche::conn::{
    CallbackSlot, ConnOpenHandle, PhpStreamCallbacks, StreamId, StreamSlots, StreamWriter,
};
use crate::quiche::driver::{enqueue, Chunk};
use crate::quiche::write_order::{law_write_is_queued, queue_of, queued_bytes};
use bytes::Bytes;
use std::sync::Arc;
use tokio::sync::mpsc;
use tokio::sync::Notify;
use vstd::prelude::*;
use vstd::string::*;

verus! {

/// A value is registered as a callback exactly if it can be called; else the script is told.
pub open spec fn installs<C>(
    callback: PhpValue<C>,
    name: Seq<char>,
    r: Result<(), PhpException>,
) -> bool {
    match r {
        Ok(()) => callback.callable,
        Err(e) => !callback.callable && e.says(
            PhpClass::Exception,
            name + " expects a callable"@,
        ),
    }
}

/// Puts a value into a slot, if it can be called. `name` is what the script called.
pub fn install_slot<C>(slot: &mut CallbackSlot<C>, callback: PhpValue<C>, name: &str) -> (r: Result<
    (),
    PhpException,
>)
    ensures
        installs(callback, name@, r),
        *final(slot) == (if r is Ok {
            Some(callback.value)
        } else {
            *old(slot)
        }),
{
    if !callback.callable {
        let mut message: String = String::new();
        message.append(name);
        message.append(" expects a callable");
        assert(message@ =~= name@ + " expects a callable"@);
        return Err(PhpException { class: PhpClass::Exception, message });
    }
    *slot = Some(callback.value);
    Ok(())
}

/// What a stream object has sent to its driver, and how often it has woken it.
pub struct Outbox {
    pub port: Port<StreamWriter>,
    pub wakes: nat,
}

/// The outbox behind a sending end and a wake-up signal.
pub open spec fn outbox(tx: mpsc::Sender<StreamWriter>, notify: Arc<Notify>) -> Outbox {
    Outbox { port: write_tx(tx), wakes: wakes(*notify) }
}

/// The message asks for `content` to be written to a stream.
pub open spec fn asks_write(
    message: StreamWriter,
    stream_id: StreamId,
    content: Seq<u8>,
    fin: bool,
) -> bool {
    message.0 == stream_id && (message.1 matches Some(data) && payload(data) == content)
        && message.2 == fin
}

/// What a script is told where the driver's channel took nothing.
pub open spec fn failed_text(what: Seq<char>, failure: SendFailure) -> Seq<char> {
    what + " failed: "@ + failure.text()
}

impl Outbox {
    /// The driver was asked to write `content` and woken once; or its channel did not take that
    /// message, the driver was not woken, and the script is told why.
    pub open spec fn on_write(
        self,
        stream_id: StreamId,
        content: Seq<u8>,
        fin: bool,
        what: Seq<char>,
        r: Result<(), PhpException>,
        next: Outbox,
    ) -> bool {
        match r {
            Ok(()) => {
                &&& next.port == self.port.after(next.port.log.last())
                &&& asks_write(next.port.log.last(), stream_id, content, fin)
                &&& next.wakes == self.wakes + 1
            },
            Err(e) => {
                let (message, failure) = next.port.refused.last();
                &&& next.port == self.port.refusing(message, failure)
                &&& asks_write(message, stream_id, content, fin)
                &&& next.wakes == self.wakes
                &&& e.says(PhpClass::Exception, failed_text(what, failure))
            },
        }
    }
}

/// The step after a chunk was handed to the driver's channel: where the channel took it, the driver
/// is woken; else the script is told why not.
pub fn finish_write(notify: &mut Arc<Notify>, what: &str, sent: Result<(), SendFailure>) -> (r:
    Result<(), PhpException>)
    ensures
        match sent {
            Ok(()) => r is Ok && wakes(**final(notify)) == wakes(**old(notify)) + 1,
            Err(failure) => {
                &&& *final(notify) == *old(notify)
                &&& r matches Err(e)
                &&& e.says(PhpClass::Exception, failed_text(what@, failure))
            },
        },
{
    match sent {
        Ok(()) => {
            wake(notify);
            Ok(())
        },
        Err(failure) => {
            let mut message: String = String::new();
            message.append(what);
            message.append(" failed: ");
            message.append(failure.as_text());
            assert(message@ =~= failed_text(what@, failure));
            Err(PhpException { class: PhpClass::Exception, message })
        },
    }
}

/// Sends a chunk to the driver and wakes it.
fn send_chunk(
    tx: &mut mpsc::Sender<StreamWriter>,
    notify: &mut Arc<Notify>,
    stream_id: StreamId,
    data: Bytes,
    fin: bool,
    what: &str,
) -> (r: Result<(), PhpException>)
    ensures
        outbox(*old(tx), *old(notify)).on_write(
            stream_id,
            payload(data),
            fin,
            what@,
            r,
            outbox(*final(tx), *final(notify)),
        ),
{
    let sent: Result<(), SendFailure> = send_write(tx, (stream_id, Some(data), fin));
    finish_write(notify, what, sent)
}

/// A bidirectional stream that the peer opened.
pub struct IncomingBidiStream {
    pub conn_id: u64,
    pub stream_id: StreamId,
    pub peer_addr: String,
    pub write_tx: mpsc::Sender<StreamWriter>,
    pub write_notify: Arc<Notify>,
    /// The number of this stream's slots.
    pub number: u64,
    pub conn_handle: ConnOpenHandle,
}

impl IncomingBidiStream {
    /// Registers what to call with each chunk that comes on this stream.
    pub fn set_on_data<C>(
        &mut self,
        callbacks: &mut PhpStreamCallbacks<C>,
        callback: PhpValue<C>,
    ) -> (r: Result<(), PhpException>)
        ensures
            *final(self) == *old(self),
            installs(callback, "setOnData"@, r),
            final(callbacks).next_number == old(callbacks).next_number,
            final(callbacks)@ == (if r is Ok && old(callbacks).current(
                old(self).stream_id,
                old(self).number,
            ) {
                old(callbacks)@.insert(
                    old(self).stream_id,
                    StreamSlots {
                        on_data: Some(callback.value),
                        ..old(callbacks)@[old(self).stream_id]
                    },
                )
            } else {
                old(callbacks)@
            }),
    {
        callbacks.install_on_data(self.stream_id, self.number, callback)
    }

    /// Registers what to call once, when this stream can be used no more.
    pub fn set_on_close<C>(
        &mut self,
        callbacks: &mut PhpStreamCallbacks<C>,
        callback: PhpValue<C>,
    ) -> (r: Result<(), PhpException>)
        ensures
            *final(self) == *old(self),
            installs(callback, "setOnClose"@, r),
            final(callbacks).next_number == old(callbacks).next_number,
            final(callbacks)@ == (if r is Ok && old(callbacks).current(
                old(self).stream_id,
                old(self).number,
            ) {
                old(callbacks)@.insert(
                    old(self).stream_id,
                    StreamSlots {
                        on_close: Some(callback.value),
                        ..old(callbacks)@[old(self).stream_id]
                    },
                )
            } else {
                old(callbacks)@
            }),
    {
        callbacks.install_on_close(self.stream_id, self.number, callback)
    }

    /// Writes `data` to the peer. With `fin` the stream ends there.
    pub fn write(&mut self, data: &[u8], fin: bool) -> (r: Result<(), PhpException>)
        ensures
            *final(self) == (IncomingBidiStream {
                write_tx: final(self).write_tx,
                write_notify: final(self).write_notify,
                ..*old(self)
            }),
            outbox(old(self).write_tx, old(self).write_notify).on_write(
                old(self).stream_id,
                data@,
                fin,
                "write"@,
                r,
                outbox(final(self).write_tx, final(self).write_notify),
            ),
    {
        let bytes: Bytes = payload_copy(data);
        send_chunk(
            &mut self.write_tx,
            &mut self.write_notify,
            self.stream_id,
            bytes,
            fin,
            "write",
        )
    }

    /// Ends the stream: an empty last chunk is written to it.
    pub fn close(&mut self) -> (r: Result<(), PhpException>)
        ensures
            *final(self) == (IncomingBidiStream {
                write_tx: final(self).write_tx,
                write_notify: final(self).write_notify,
                ..*old(self)
            }),
            outbox(old(self).write_tx, old(self).write_notify).on_write(
                old(self).stream_id,
                Seq::<u8>::empty(),
                true,
                "close"@,
                r,
                outbox(final(self).write_tx, final(self).write_notify),
            ),
    {
        send_chunk(
            &mut self.write_tx,
            &mut self.write_notify,
            self.stream_id,
            payload_empty(),
            true,
            "close",
        )
    }

    /// Opens a bidirectional stream to the peer on the same connection.
    pub fn open_bidi_stream<C>(
        &self,
        callbacks: &mut PhpStreamCallbacks<C>,
        stream_id: StreamId,
    ) -> (r: BidiStream)
        ensures
            r == (BidiStream {
                conn_id: self.conn_handle.conn_id,
                stream_id,
                write_tx: self.conn_handle.write_tx,
                write_notify: self.conn_handle.write_notify,
                number: old(callbacks).next_number,
            }),
            old(callbacks).registered(stream_id, final(callbacks)),
    {
        let (write_tx, write_notify, number) = self.conn_handle.prepare_bidi_stream(
            callbacks,
            stream_id,
        );
        BidiStream { conn_id: self.conn_handle.conn_id, stream_id, write_tx, write_notify, number }
    }

    /// Opens a unidirectional stream to the peer on the same connection.
    pub fn open_uni_stream<C>(
        &self,
        callbacks: &mut PhpStreamCallbacks<C>,
        stream_id: StreamId,
    ) -> (r: UniStream)
        ensures
            r == (UniStream {
                conn_id: self.conn_handle.conn_id,
                stream_id,
                write_tx: self.conn_handle.write_tx,
                write_notify: self.conn_handle.write_notify,
                number: old(callbacks).next_number,
            }),
            old(callbacks).registered(stream_id, final(callbacks)),
    {
        let (write_tx, write_notify, number) = self.conn_handle.prepare_uni_stream(
            callbacks,
            stream_id,
        );
        UniStream { conn_id: self.conn_handle.conn_id, stream_id, write_tx, write_notify, number }
    }

    pub fn get_conn_id(&self) -> (r: u64)
        ensures
            r == self.conn_id,
    {
        self.conn_id
    }

    pub fn get_stream_id(&self) -> (r: u64)
        ensures
            r == self.stream_id,
    {
        self.stream_id
    }

    pub fn get_peer_addr(&self) -> (r: String)
        ensures
            r@ == self.peer_addr@,
    {
        self.peer_addr.clone()
    }
}

/// A unidirectional stream that the peer opened: the server only reads it.
pub struct IncomingUniStream {
    pub conn_id: u64,
    pub stream_id: StreamId,
    pub peer_addr: String,
    /// The number of this stream's slots.
    pub number: u64,
    pub conn_handle: ConnOpenHandle,
}

impl IncomingUniStream {
    /// Registers what to call with each chunk that comes on this stream.
    pub fn set_on_data<C>(
        &mut self,
        callbacks: &mut PhpStreamCallbacks<C>,
        callback: PhpValue<C>,
    ) -> (r: Result<(), PhpException>)
        ensures
            *final(self) == *old(self),
            installs(callback, "setOnData"@, r),
            final(callbacks).next_number == old(callbacks).next_number,
            final(callbacks)@ == (if r is Ok && old(callbacks).current(
                old(self).stream_id,
                old(self).number,
            ) {
                old(callbacks)@.insert(
                    old(self).stream_id,
                    StreamSlots {
                        on_data: Some(callback.value),
                        ..old(callbacks)@[old(self).stream_id]
                    },
                )
            } else {
                old(callbacks)@
            }),
    {
        callbacks.install_on_data(self.stream_id, self.number, callback)
    }

    /// Registers what to call once, when this stream can be used no more.
    pub fn set_on_close<C>(
        &mut self,
        callbacks: &mut PhpStreamCallbacks<C>,
        callback: PhpValue<C>,
    ) -> (r: Result<(), PhpException>)
        ensures
            *final(self) == *old(self),
            installs(callback, "setOnClose"@, r),
            final(callbacks).next_number == old(callbacks).next_number,
            final(callbacks)@ == (if r is Ok && old(callbacks).current(
                old(self).stream_id,
                old(self).number,
            ) {
                old(callbacks)@.insert(
                    old(self).stream_id,
                    StreamSlots {
                        on_close: Some(callback.value),
                        ..old(callbacks)@[old(self).stream_id]
                    },
                )
            } else {
                old(callbacks)@
            }),
    {
        callbacks.install_on_close(self.stream_id, self.number, callback)
    }

    /// Opens a bidirectional stream to the peer on the same connection.
    pub fn open_bidi_stream<C>(
        &self,
        callbacks: &mut PhpStreamCallbacks<C>,
        stream_id: StreamId,
    ) -> (r: BidiStream)
        ensures
            r == (BidiStream {
                conn_id: self.conn_handle.conn_id,
                stream_id,
                write_tx: self.conn_handle.write_tx,
                write_notify: self.conn_handle.write_notify,
                number: old(callbacks).next_number,
            }),
            old(callbacks).registered(stream_id, final(callbacks)),
    {
        let (write_tx, write_notify, number) = self.conn_handle.prepare_bidi_stream(
            callbacks,
            stream_id,
        );
        BidiStream { conn_id: self.conn_handle.conn_id, stream_id, write_tx, write_notify, number }
    }

    /// Opens a unidirectional stream to the peer on the same connection.
    pub fn open_uni_stream<C>(
        &self,
        callbacks: &mut PhpStreamCallbacks<C>,
        stream_id: StreamId,
    ) -> (r: UniStream)
        ensures
            r == (UniStream {
                conn_id: self.conn_handle.conn_id,
                stream_id,
                write_tx: self.conn_handle.write_tx,
                write_notify: self.conn_handle.write_notify,
                number: old(callbacks).next_number,
            }),
            old(callbacks).registered(stream_id, final(callbacks)),
    {
        let (write_tx, write_notify, number) = self.conn_handle.prepare_uni_stream(
            callbacks,
            stream_id,
        );
        UniStream { conn_id: self.conn_handle.conn_id, stream_id, write_tx, write_notify, number }
    }

    pub fn get_conn_id(&self) -> (r: u64)
        ensures
            r == self.conn_id,
    {
        self.conn_id
    }

    pub fn get_stream_id(&self) -> (r: u64)
        ensures
            r == self.stream_id,
    {
        self.stream_id
    }

    pub fn get_peer_addr(&self) -> (r: String)
        ensures
            r@ == self.peer_addr@,
    {
        self.peer_addr.clone()
    }
}

/// A bidirectional stream that the server opened.
pub struct BidiStream {
    pub conn_id: u64,
    pub stream_id: StreamId,
    pub write_tx: mpsc::Sender<StreamWriter>,
    pub write_notify: Arc<Notify>,
    /// The number of this stream's slots.
    pub number: u64,
}

impl BidiStream {
    /// Registers what to call with each chunk that comes on this stream.
    pub fn set_on_data<C>(
        &mut self,
        callbacks: &mut PhpStreamCallbacks<C>,
        callback: PhpValue<C>,
    ) -> (r: Result<(), PhpException>)
        ensures
            *final(self) == *old(self),
            installs(callback, "setOnData"@, r),
            final(callbacks).next_number == old(callbacks).next_number,
            final(callbacks)@ == (if r is Ok && old(callbacks).current(
                old(self).stream_id,
                old(self).number,
            ) {
                old(callbacks)@.insert(
                    old(self).stream_id,
                    StreamSlots {
                        on_data: Some(callback.value),
                        ..old(callbacks)@[old(self).stream_id]
                    },
                )
            } else {
                old(callbacks)@
            }),
    {
        callbacks.install_on_data(self.stream_id, self.number, callback)
    }

    /// Registers what to call once, when this stream can be used no more.
    pub fn set_on_close<C>(
        &mut self,
        callbacks: &mut PhpStreamCallbacks<C>,
        callback: PhpValue<C>,
    ) -> (r: Result<(), PhpException>)
        ensures
            *final(self) == *old(self),
            installs(callback, "setOnClose"@, r),
            final(callbacks).next_number == old(callbacks).next_number,
            final(callbacks)@ == (if r is Ok && old(callbacks).current(
                old(self).stream_id,
                old(self).number,
            ) {
                old(callbacks)@.insert(
                    old(self).stream_id,
                    StreamSlots {
                        on_close: Some(callback.value),
                        ..old(callbacks)@[old(self).stream_id]
                    },
                )
            } else {
                old(callbacks)@
            }),
    {
        callbacks.install_on_close(self.stream_id, self.number, callback)
    }

    /// Writes `data` to the peer. With `fin` the stream ends there.
    pub fn write(&mut self, data: &[u8], fin: bool) -> (r: Result<(), PhpException>)
        ensures
            *final(self) == (BidiStream {
                write_tx: final(self).write_tx,
                write_notify: final(self).write_notify,
                ..*old(self)
            }),
            outbox(old(self).write_tx, old(self).write_notify).on_write(
                old(self).stream_id,
                data@,
                fin,
                "write"@,
                r,
                outbox(final(self).write_tx, final(self).write_notify),
            ),
    {
        let bytes: Bytes = payload_copy(data);
        send_chunk(
            &mut self.write_tx,
            &mut self.write_notify,
            self.stream_id,
            bytes,
            fin,
            "write",
        )
    }

    /// Ends the stream: an empty last chunk is written to it.
    pub fn close(&mut self) -> (r: Result<(), PhpException>)
        ensures
            *final(self) == (BidiStream {
                write_tx: final(self).write_tx,
                write_notify: final(self).write_notify,
                ..*old(self)
            }),
            outbox(old(self).write_tx, old(self).write_notify).on_write(
                old(self).stream_id,
                Seq::<u8>::empty(),
                true,
                "close"@,
                r,
                outbox(final(self).write_tx, final(self).write_notify),
            ),
    {
        send_chunk(
            &mut self.write_tx,
            &mut self.write_notify,
            self.stream_id,
            payload_empty(),
            true,
            "close",
        )
    }

    pub fn get_conn_id(&self) -> (r: u64)
        ensures
            r == self.conn_id,
    {
        self.conn_id
    }

    pub fn get_stream_id(&self) -> (r: u64)
        ensures
            r == self.stream_id,
    {
        self.stream_id
    }
}

/// A unidirectional stream that the server opened: the server only writes to it.
pub struct UniStream {
    pub conn_id: u64,
    pub stream_id: StreamId,
    pub write_tx: mpsc::Sender<StreamWriter>,
    pub write_notify: Arc<Notify>,
    /// The number of this stream's slots.
    pub number: u64,
}

impl UniStream {
    /// Registers what to call once, when this stream can be used no more.
    pub fn set_on_close<C>(
        &mut self,
        callbacks: &mut PhpStreamCallbacks<C>,
        callback: PhpValue<C>,
    ) -> (r: Result<(), PhpException>)
        ensures
            *final(self) == *old(self),
            installs(callback, "setOnClose"@, r),
            final(callbacks).next_number == old(callbacks).next_number,
            final(callbacks)@ == (if r is Ok && old(callbacks).current(
                old(self).stream_id,
                old(self).number,
            ) {
                old(callbacks)@.insert(
                    old(self).stream_id,
                    StreamSlots {
                        on_close: Some(callback.value),
                        ..old(callbacks)@[old(self).stream_id]
                    },
                )
            } else {
                old(callbacks)@
            }),
    {
        callbacks.install_on_close(self.stream_id, self.number, callback)
    }

    /// Writes `data` to the peer. With `fin` the stream ends there.
    pub fn write(&mut self, data: &[u8], fin: bool) -> (r: Result<(), PhpException>)
        ensures
            *final(self) == (UniStream {
                write_tx: final(self).write_tx,
                write_notify: final(self).write_notify,
                ..*old(self)
            }),
            outbox(old(self).write_tx, old(self).write_notify).on_write(
                old(self).stream_id,
                data@,
                fin,
                "write"@,
                r,
                outbox(final(self).write_tx, final(self).write_notify),
            ),
    {
        let bytes: Bytes = payload_copy(data);
        send_chunk(
            &mut self.write_tx,
            &mut self.write_notify,
            self.stream_id,
            bytes,
            fin,
            "write",
        )
    }

    /// Ends the stream: an empty last chunk is written to it.
    pub fn close(&mut self) -> (r: Result<(), PhpException>)
        ensures
            *final(self) == (UniStream {
                write_tx: final(self).write_tx,
                write_notify: final(self).write_notify,
                ..*old(self)
            }),
            outbox(old(self).write_tx, old(self).write_notify).on_write(
                old(self).stream_id,
                Seq::<u8>::empty(),
                true,
                "close"@,
                r,
                outbox(final(self).write_tx, final(self).write_notify),
            ),
    {
        send_chunk(
            &mut self.write_tx,
            &mut self.write_notify,
            self.stream_id,
            payload_empty(),
            true,
            "close",
        )
    }

    pub fn get_conn_id(&self) -> (r: u64)
        ensures
            r == self.conn_id,
    {
        self.conn_id
    }

    pub fn get_stream_id(&self) -> (r: u64)
        ensures
            r == self.stream_id,
    {
        self.stream_id
    }
}

/// To close a stream is to write an empty last chunk to it: given the same answer of the channel,
/// both ask the driver for the same, wake it alike, and succeed or fail alike, but for the name of
/// what failed.
pub proof fn law_close_is_an_empty_write(
    before: Outbox,
    stream_id: StreamId,
    written: Result<(), PhpException>,
    after_write: Outbox,
    closed: Result<(), PhpException>,
    after_close: Outbox,
)
    requires
        before.on_write(stream_id, Seq::<u8>::empty(), true, "write"@, written, after_write),
        before.on_write(stream_id, Seq::<u8>::empty(), true, "close"@, closed, after_close),
        written is Ok <==> closed is Ok,
        written is Err ==> after_write.port.refused.last().1 == after_close.port.refused.last().1,
    ensures
        after_close.wakes == after_write.wakes,
        after_close.port.log.len() == after_write.port.log.len(),
        closed is Ok ==> {
            &&& after_close.port.log.drop_last() == after_write.port.log.drop_last()
            &&& asks_write(after_close.port.log.last(), stream_id, Seq::<u8>::empty(), true)
            &&& asks_write(after_write.port.log.last(), stream_id, Seq::<u8>::empty(), true)
        },
        closed is Err ==> {
            let failure = after_close.port.refused.last().1;
            &&& after_close.port.log == before.port.log
            &&& after_write.port.log == before.port.log
            &&& after_close.wakes == before.wakes
            &&& closed->Err_0.says(PhpClass::Exception, failed_text("close"@, failure))
            &&& written->Err_0.says(PhpClass::Exception, failed_text("write"@, failure))
        },
{
}

/// A write that succeeded has handed the driver one message more: for the object's stream, with
/// every byte that was given, whatever their number, and with the end mark that was given. The
/// driver was woken once. Once the message has joined its stream's queue, what waits there is what
/// waited before and then what was given.
pub proof fn law_write_reaches_the_queue(
    before: Outbox,
    stream_id: StreamId,
    content: Seq<u8>,
    fin: bool,
    what: Seq<char>,
    after: Outbox,
    pending: Map<StreamId, Seq<Chunk>>,
)
    requires
        before.on_write(stream_id, content, fin, what, Ok(()), after),
    ensures
        after.port.log.len() == before.port.log.len() + 1,
        forall|i: int|
            0 <= i < before.port.log.len() ==> #[trigger] after.port.log[i] == before.port.log[i],
        after.port.log.last().0 == stream_id,
        after.port.log.last().1 matches Some(data) && payload(data) == content,
        after.port.log.last().2 == fin,
        after.port.refused == before.port.refused,
        after.port.channel == before.port.channel,
        after.wakes == before.wakes + 1,
        queue_of(enqueue(pending, after.port.log.last()), stream_id).len() == queue_of(
            pending,
            stream_id,
        ).len() + 1,
        queue_of(enqueue(pending, after.port.log.last()), stream_id).last() == (content, fin),
        queued_bytes(queue_of(enqueue(pending, after.port.log.last()), stream_id)) == queued_bytes(
            queue_of(pending, stream_id),
        ) + content,
{
    law_write_is_queued(pending, after.port.log.last(), stream_id, content, fin);
}

/// A write that failed has sent nothing and woken nobody; the message that the channel refused is
/// the one asked for, whole, and the script is told what failed and why.
pub proof fn law_failed_write_is_told(
    before: Outbox,
    stream_id: StreamId,
    content: Seq<u8>,
    fin: bool,
    what: Seq<char>,
    e: PhpException,
    after: Outbox,
)
    requires
        before.on_write(stream_id, content, fin, what, Err(e), after),
    ensures
        after.port.log == before.port.log,
        after.port.channel == before.port.channel,
        after.wakes == before.wakes,
        after.port.refused.len() == before.port.refused.len() + 1,
        after.port.refused.last().0.0 == stream_id,
        after.port.refused.last().0.1 matches Some(data) && payload(data) == content,
        after.port.refused.last().0.2 == fin,
        e.class == PhpClass::Exception,
        e.message@ == what + " failed: "@ + (match after.port.refused.last().1 {
            SendFailure::Full => "no available capacity"@,
            SendFailure::Closed => "channel closed"@,
        }),
{
}

/// An object's outbox is what has gone through its end of the driver's channel, and how often it
/// raised the signal.
pub proof fn law_outbox_shows_its_ends(tx: mpsc::Sender<StreamWriter>, notify: Arc<Notify>)
    ensures
        outbox(tx, notify).port == write_tx(tx),
        outbox(tx, notify).wakes == wakes(*notify),
{
}

/// A value is registered exactly if it can be called; else the script is told which call refused
/// it.
pub proof fn law_only_callables_are_registered<C>(
    callback: PhpValue<C>,
    name: Seq<char>,
    r: Result<(), PhpException>,
)
    requires
        installs(callback, name, r),
    ensures
        r is Ok <==> callback.callable,
        r matches Err(e) ==> e.class == PhpClass::Exception && e.message@ == name
            + " expects a callable"@,
{
}

} // verus!
