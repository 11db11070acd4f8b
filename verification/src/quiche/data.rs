//! The two halves of a stream, and what comes out of the readable one.

use crate::channel::{wake, wakes, SendFailure};
use crate::payload::{bytes_text, payload, payload_len, payload_text};
use crate::quiche::conn::{StreamId, StreamReader, StreamWriter};
use crate::text::{append_number, number_text};
use bytes::Bytes;
use std::sync::Arc;
use tokio::sync::mpsc;
use tokio::sync::Notify;
use vstd::prelude::*;
use vstd::string::*;

verus! {

/// Data that came on a stream.
#[derive(Debug, Clone)]
pub struct StreamDataEvent {
    pub conn_id: u64,
    pub stream_id: StreamId,
    /// The peer at the other end of the connection.
    pub peer_addr: String,
    pub data: Option<Bytes>,
    /// Whether the stream ends here.
    pub fin: bool,
    /// Whether the connection is closed.
    pub closed: bool,
}

/// A truth value in words.
pub open spec fn bool_text(b: bool) -> Seq<char> {
    if b {
        "true"@
    } else {
        "false"@
    }
}

/// How many bytes there are; none where there is no data.
pub open spec fn data_len(data: Option<Bytes>) -> nat {
    match data {
        Some(d) => payload(d).len(),
        None => 0,
    }
}

/// The data, if there is any, as a byte string literal.
pub open spec fn data_text(data: Option<Bytes>) -> Seq<char> {
    match data {
        Some(d) => "Some("@ + (seq!['b', '"'] + bytes_text(payload(d)) + seq!['"']) + ")"@,
        None => "None"@,
    }
}

impl StreamDataEvent {
    /// The event in one line.
    pub open spec fn text(self) -> Seq<char> {
        "[stream="@ + number_text(self.stream_id as nat, 10) + "][peer="@ + self.peer_addr@
            + "][fin="@ + bool_text(self.fin) + "] "@ + number_text(data_len(self.data), 10)
            + " byte(s): "@ + data_text(self.data)
    }

    /// The event in one line.
    pub fn to_text(&self) -> (r: String)
        ensures
            r@ == self.text(),
    {
        let mut out: String = String::new();
        out.append("[stream=");
        append_number(&mut out, self.stream_id as u128, 10);
        out.append("][peer=");
        out.append(self.peer_addr.as_str());
        out.append("][fin=");
        out.append(if self.fin { "true" } else { "false" });
        out.append("] ");
        let len: usize = match &self.data {
            Some(d) => payload_len(d),
            None => 0,
        };
        append_number(&mut out, len as u128, 10);
        out.append(" byte(s): ");
        match &self.data {
            Some(d) => {
                out.append("Some(");
                let literal: String = payload_text(d);
                out.append(literal.as_str());
                out.append(")");
            },
            None => {
                out.append("None");
            },
        }
        assert(out@ =~= self.text());
        out
    }
}

/// The half of a stream that data comes from.
#[derive(Debug)]
pub struct ReadHalf {
    pub conn_id: u64,
    pub stream_id: StreamId,
    pub peer_addr: String,
    pub read_rx: mpsc::Receiver<StreamReader>,
}

/// The half of a stream that data is written to.
#[derive(Debug)]
pub struct WriteHalf {
    pub conn_id: u64,
    pub stream_id: StreamId,
    pub peer_addr: String,
    pub write_tx: mpsc::Sender<StreamWriter>,
    pub write_notify: Arc<Notify>,
}

impl ReadHalf {
    /// The chunk that was received on `read_rx` is what came on this stream.
    pub open spec fn reads(
        self,
        received: Option<StreamReader>,
        r: Option<StreamDataEvent>,
    ) -> bool {
        match received {
            Some((data, fin, closed)) => {
                &&& r matches Some(event)
                &&& event.conn_id == self.conn_id
                &&& event.stream_id == self.stream_id
                &&& event.peer_addr@ == self.peer_addr@
                &&& event.data == data
                &&& event.fin == fin
                &&& event.closed == closed
            },
            None => r is None,
        }
    }

    /// Makes what was received on `read_rx` an event of this stream. Nothing comes once the
    /// stream is closed.
    pub fn read(&self, received: Option<StreamReader>) -> (r: Option<StreamDataEvent>)
        ensures
            self.reads(received, r),
    {
        match received {
            Some((data, fin, closed)) => Some(
                StreamDataEvent {
                    conn_id: self.conn_id,
                    stream_id: self.stream_id,
                    peer_addr: self.peer_addr.clone(),
                    data,
                    fin,
                    closed,
                },
            ),
            None => None,
        }
    }
}

impl WriteHalf {
    /// What is to be sent to the driver on `write_tx`, so that `data` is written to the stream.
    pub fn write(&self, data: Bytes, fin: bool) -> (r: StreamWriter)
        ensures
            r == (self.stream_id, Some(data), fin),
    {
        (self.stream_id, Some(data), fin)
    }

    /// The step after the message was sent, or the driver was found to be gone: a driver that got
    /// the message is woken.
    pub fn written(&mut self, sent: bool) -> (r: Result<(), SendFailure>)
        ensures
            *final(self) == (WriteHalf { write_notify: final(self).write_notify, ..*old(self) }),
            r == (if sent {
                Ok::<(), SendFailure>(())
            } else {
                Err(SendFailure::Closed)
            }),
            wakes(*final(self).write_notify) == wakes(*old(self).write_notify) + (if sent {
                1int
            } else {
                0
            }),
    {
        if !sent {
            return Err(SendFailure::Closed);
        }
        wake(&mut self.write_notify);
        Ok(())
    }
}

/// What the `i`-th call receives where the messages were sent and then every sender went.
pub open spec fn received_at(messages: Seq<StreamReader>, i: int) -> Option<StreamReader> {
    if 0 <= i < messages.len() {
        Some(messages[i])
    } else {
        None
    }
}

/// A sequence of reads gives the messages in the order in which they were received, each once and
/// unchanged, and then nothing for good. No message ends the sequence by itself, not even one that
/// says that the stream ends or that the connection is closed.
pub proof fn law_reads_follow_messages(
    half: ReadHalf,
    messages: Seq<StreamReader>,
    events: Seq<Option<StreamDataEvent>>,
    i: int,
)
    requires
        forall|k: int|
            0 <= k < events.len() ==> half.reads(received_at(messages, k), #[trigger] events[k]),
        0 <= i < events.len(),
    ensures
        i < messages.len() ==> {
            &&& events[i] matches Some(event)
            &&& event.data == messages[i].0
            &&& event.fin == messages[i].1
            &&& event.closed == messages[i].2
            &&& event.conn_id == half.conn_id
            &&& event.stream_id == half.stream_id
            &&& event.peer_addr@ == half.peer_addr@
        },
        i >= messages.len() ==> events[i] is None,
{
    assert(half.reads(received_at(messages, i), events[i]));
}

/// The line of an event holds the stream, the peer, whether the stream ends, how many bytes came
/// and every one of them, in this order; where no data came, it says so.
pub proof fn law_event_line_holds_everything(event: StreamDataEvent)
    ensures
        event.data matches Some(data) ==> event.text() == "[stream="@ + number_text(
            event.stream_id as nat,
            10,
        ) + "][peer="@ + event.peer_addr@ + "][fin="@ + (if event.fin {
            "true"@
        } else {
            "false"@
        }) + "] "@ + number_text(payload(data).len(), 10) + " byte(s): "@ + ("Some("@ + (seq![
            'b',
            '"',
        ] + bytes_text(payload(data)) + seq!['"']) + ")"@),
        event.data is None ==> event.text() == "[stream="@ + number_text(event.stream_id as nat, 10)
            + "][peer="@ + event.peer_addr@ + "][fin="@ + (if event.fin {
            "true"@
        } else {
            "false"@
        }) + "] "@ + number_text(0, 10) + " byte(s): "@ + "None"@,
{
}

} // verus!
