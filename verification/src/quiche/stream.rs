//! Streams by what can be done with them: read, write, or both.

use crate::quiche::conn::{StreamReader, StreamWriter};
use crate::quiche::data::{ReadHalf, StreamDataEvent, WriteHalf};
use bytes::Bytes;
use vstd::prelude::*;

verus! {

/// A stream that the peer opened.
#[derive(Debug)]
pub enum AcceptedRemoteStream {
    /// A unidirectional stream, which can only be read.
    Readable(ReadableQuicheStream),
    /// A bidirectional stream, which can be read and written.
    BiDirectional(BiDirectionalQuicheStream),
}

impl AcceptedRemoteStream {
    /// The half that is read, whatever the kind of stream.
    pub open spec fn read_half(self) -> ReadHalf {
        match self {
            AcceptedRemoteStream::Readable(s) => s.inner,
            AcceptedRemoteStream::BiDirectional(s) => s.read,
        }
    }

    /// The identifier of the stream.
    pub fn stream_id(&self) -> (r: u64)
        ensures
            r == self.read_half().stream_id,
    {
        match self {
            AcceptedRemoteStream::Readable(s) => s.inner.stream_id,
            AcceptedRemoteStream::BiDirectional(s) => s.read.stream_id,
        }
    }

    /// The peer that opened the stream.
    pub fn peer_addr(&self) -> (r: String)
        ensures
            r@ == self.read_half().peer_addr@,
    {
        match self {
            AcceptedRemoteStream::Readable(s) => s.inner.peer_addr.clone(),
            AcceptedRemoteStream::BiDirectional(s) => s.read.peer_addr.clone(),
        }
    }

    /// Makes what was received for the stream an event of it.
    pub fn read(&self, received: Option<StreamReader>) -> (r: Option<StreamDataEvent>)
        ensures
            self.read_half().reads(received, r),
    {
        match self {
            AcceptedRemoteStream::Readable(s) => s.read(received),
            AcceptedRemoteStream::BiDirectional(s) => s.read(received),
        }
    }
}

/// A stream that can only be read. The peer opened it.
#[derive(Debug)]
pub struct ReadableQuicheStream {
    pub inner: ReadHalf,
}

/// A stream that can only be written. The server opened it.
#[derive(Debug)]
pub struct WriteableQuicheStream {
    pub inner: WriteHalf,
}

/// A stream that can be read and written.
#[derive(Debug)]
pub struct BiDirectionalQuicheStream {
    pub read: ReadHalf,
    pub write: WriteHalf,
}

impl BiDirectionalQuicheStream {
    /// Parts the stream into its halves.
    pub fn split(self) -> (r: (ReadableQuicheStream, WriteableQuicheStream))
        ensures
            r.0.inner == self.read,
            r.1.inner == self.write,
    {
        (ReadableQuicheStream { inner: self.read }, WriteableQuicheStream { inner: self.write })
    }
}

/// A stream of a connection.
pub trait QuicheStream: Send {
    spec fn conn(&self) -> u64;

    spec fn stream(&self) -> u64;

    /// The identifier of the connection.
    fn conn_id(&self) -> (r: u64)
        ensures
            r == self.conn(),
    ;

    /// The identifier of the stream.
    fn stream_id(&self) -> (r: u64)
        ensures
            r == self.stream(),
    ;
}

/// A stream that can be read.
pub trait QuicheReadable: QuicheStream {
    spec fn readable(&self) -> ReadHalf;

    /// Makes what was received for the stream an event of it. Nothing comes once the stream is
    /// closed.
    fn read(&self, received: Option<StreamReader>) -> (r: Option<StreamDataEvent>)
        ensures
            self.readable().reads(received, r),
    ;
}

/// A stream that can be written.
pub trait QuicheWriteable: QuicheStream {
    spec fn writeable(&self) -> WriteHalf;

    /// What is to be sent to the driver, so that `data` is written. With `fin` the stream ends
    /// there.
    fn write(&self, data: Bytes, fin: bool) -> (r: StreamWriter)
        ensures
            r == (self.writeable().stream_id, Some(data), fin),
    ;
}

impl QuicheStream for ReadableQuicheStream {
    open spec fn conn(&self) -> u64 {
        self.inner.conn_id
    }

    open spec fn stream(&self) -> u64 {
        self.inner.stream_id
    }

    fn conn_id(&self) -> (r: u64) {
        self.inner.conn_id
    }

    fn stream_id(&self) -> (r: u64) {
        self.inner.stream_id
    }
}

impl QuicheReadable for ReadableQuicheStream {
    open spec fn readable(&self) -> ReadHalf {
        self.inner
    }

    fn read(&self, received: Option<StreamReader>) -> (r: Option<StreamDataEvent>) {
        self.inner.read(received)
    }
}

impl QuicheStream for WriteableQuicheStream {
    open spec fn conn(&self) -> u64 {
        self.inner.conn_id
    }

    open spec fn stream(&self) -> u64 {
        self.inner.stream_id
    }

    fn conn_id(&self) -> (r: u64) {
        self.inner.conn_id
    }

    fn stream_id(&self) -> (r: u64) {
        self.inner.stream_id
    }
}

impl QuicheWriteable for WriteableQuicheStream {
    open spec fn writeable(&self) -> WriteHalf {
        self.inner
    }

    fn write(&self, data: Bytes, fin: bool) -> (r: StreamWriter) {
        self.inner.write(data, fin)
    }
}

/// A bidirectional stream goes by the identifiers of its readable half.
impl QuicheStream for BiDirectionalQuicheStream {
    open spec fn conn(&self) -> u64 {
        self.read.conn_id
    }

    open spec fn stream(&self) -> u64 {
        self.read.stream_id
    }

    fn conn_id(&self) -> (r: u64) {
        self.read.conn_id
    }

    fn stream_id(&self) -> (r: u64) {
        self.read.stream_id
    }
}

impl QuicheReadable for BiDirectionalQuicheStream {
    open spec fn readable(&self) -> ReadHalf {
        self.read
    }

    fn read(&self, received: Option<StreamReader>) -> (r: Option<StreamDataEvent>) {
        self.read.read(received)
    }
}

impl QuicheWriteable for BiDirectionalQuicheStream {
    open spec fn writeable(&self) -> WriteHalf {
        self.write
    }

    fn write(&self, data: Bytes, fin: bool) -> (r: StreamWriter) {
        self.write.write(data, fin)
    }
}

} // verus!
