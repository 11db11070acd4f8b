//! The channels and the wake-up signal of `tokio` that join a connection's driver, the server and
//! the stream objects.
//!
//! A channel's end is modelled by a [`Port`]: the channel it belongs to, how many messages that
//! channel holds at most, what has gone through this end, and what it was asked for in vain. A
//! sending handle is cloned with its log, so the log of a clone starts with what its original had
//! sent by then.

use crate::quiche::conn::{DriverEvent, StreamPriority, StreamWriter};
use std::sync::Arc;
use tokio::sync::mpsc;
use tokio::sync::Notify;
use vstd::prelude::*;

verus! {

#[verifier::external_type_specification]
#[verifier::external_body]
#[verifier::reject_recursive_types(T)]
pub struct ExSender<T>(mpsc::Sender<T>);

#[verifier::external_type_specification]
#[verifier::external_body]
#[verifier::reject_recursive_types(T)]
pub struct ExReceiver<T>(mpsc::Receiver<T>);

#[verifier::external_type_specification]
#[verifier::external_body]
#[verifier::reject_recursive_types(T)]
pub struct ExOwnedPermit<T>(mpsc::OwnedPermit<T>);

#[verifier::external_type_specification]
#[verifier::external_body]
pub struct ExNotify(tokio::sync::Notify);

/// One end of a channel.
pub struct Port<T> {
    /// Which channel this is an end of.
    pub channel: int,
    /// How many messages the channel holds at most.
    pub capacity: nat,
    /// What has gone through this end, oldest first.
    pub log: Seq<T>,
    /// What this end was given to send and the channel did not take, and why, oldest first.
    pub refused: Seq<(T, SendFailure)>,
    /// How often this end was asked in vain: for a message while none waited, or for a place while
    /// there was none.
    pub misses: nat,
}

impl<T> Port<T> {
    /// This end once `message` has gone through it.
    pub open spec fn after(self, message: T) -> Port<T> {
        Port { log: self.log.push(message), ..self }
    }

    /// This end once the channel has not taken `message`.
    pub open spec fn refusing(self, message: T, failure: SendFailure) -> Port<T> {
        Port { refused: self.refused.push((message, failure)), ..self }
    }

    /// This end once it was asked in vain.
    pub open spec fn missing(self) -> Port<T> {
        Port { misses: self.misses + 1, ..self }
    }
}

/// Why a channel took no message.
#[derive(Clone, Copy, PartialEq, Eq, Structural, Debug)]
pub enum SendFailure {
    /// The channel holds as many messages as it can.
    Full,
    /// The receiving end is gone.
    Closed,
}

impl SendFailure {
    /// The failure in words, as the channel puts it.
    pub open spec fn text(self) -> Seq<char> {
        match self {
            SendFailure::Full => "no available capacity"@,
            SendFailure::Closed => "channel closed"@,
        }
    }

    /// The failure in words, as the channel puts it.
    pub fn as_text(self) -> (r: &'static str)
        ensures
            r@ == self.text(),
    {
        match self {
            SendFailure::Full => "no available capacity",
            SendFailure::Closed => "channel closed",
        }
    }
}

/// The sending end of a connection's outbound chunks.
pub uninterp spec fn write_tx(tx: mpsc::Sender<StreamWriter>) -> Port<StreamWriter>;

/// The receiving end of a connection's outbound chunks.
pub uninterp spec fn write_rx(rx: mpsc::Receiver<StreamWriter>) -> Port<StreamWriter>;

/// The receiving end of a connection's priority changes.
pub uninterp spec fn priority_rx(rx: mpsc::Receiver<StreamPriority>) -> Port<StreamPriority>;

/// A sending end of the events that the drivers report.
pub uninterp spec fn event_tx(tx: mpsc::Sender<(u64, DriverEvent)>) -> Port<(u64, DriverEvent)>;

/// A sending end of the drivers' events that holds a reserved place in the channel.
pub uninterp spec fn event_permit(permit: mpsc::OwnedPermit<(u64, DriverEvent)>) -> Port<
    (u64, DriverEvent),
>;

/// The receiving end of the events that the drivers report.
pub uninterp spec fn event_rx(rx: mpsc::Receiver<(u64, DriverEvent)>) -> Port<(u64, DriverEvent)>;

/// A sending end of the connections' close signals.
pub uninterp spec fn close_tx(tx: mpsc::Sender<(u64, bool)>) -> Port<(u64, bool)>;

/// The receiving end of the connections' close signals.
pub uninterp spec fn close_rx(rx: mpsc::Receiver<(u64, bool)>) -> Port<(u64, bool)>;

/// How often a wake-up signal has been raised through this handle.
pub uninterp spec fn wakes(notify: Notify) -> nat;

/// Two ends of one new channel through which nothing has gone.
pub open spec fn fresh_pair<T>(tx: Port<T>, rx: Port<T>, capacity: nat) -> bool {
    &&& tx.channel == rx.channel
    &&& tx.capacity == capacity
    &&& rx.capacity == capacity
    &&& tx.log == Seq::<T>::empty()
    &&& rx.log == Seq::<T>::empty()
    &&& tx.refused == Seq::<(T, SendFailure)>::empty()
    &&& tx.misses == 0
    &&& rx.misses == 0
}

/// `mpsc::channel` for outbound chunks: the two ends of a new, empty channel that holds at most
/// `capacity` messages. It panics for none, and for more than an eighth of the address space.
#[verifier::external_body]
pub(crate) fn write_channel(capacity: usize) -> (r: (
    mpsc::Sender<StreamWriter>,
    mpsc::Receiver<StreamWriter>,
))
    requires
        0 < capacity <= usize::MAX / 8,
    ensures
        fresh_pair(write_tx(r.0), write_rx(r.1), capacity as nat),
{
    mpsc::channel(capacity)
}

/// `mpsc::channel` for the drivers' events, as [`write_channel`].
#[verifier::external_body]
pub(crate) fn event_channel(capacity: usize) -> (r: (
    mpsc::Sender<(u64, DriverEvent)>,
    mpsc::Receiver<(u64, DriverEvent)>,
))
    requires
        0 < capacity <= usize::MAX / 8,
    ensures
        fresh_pair(event_tx(r.0), event_rx(r.1), capacity as nat),
{
    mpsc::channel(capacity)
}

/// `mpsc::channel` for the connections' close signals, as [`write_channel`].
#[verifier::external_body]
pub(crate) fn close_channel(capacity: usize) -> (r: (
    mpsc::Sender<(u64, bool)>,
    mpsc::Receiver<(u64, bool)>,
))
    requires
        0 < capacity <= usize::MAX / 8,
    ensures
        fresh_pair(close_tx(r.0), close_rx(r.1), capacity as nat),
{
    mpsc::channel(capacity)
}

/// `Sender::clone`: a second handle on the same channel, which takes the log along.
#[verifier::external_body]
pub(crate) fn clone_sender<T>(tx: &mpsc::Sender<T>) -> (r: mpsc::Sender<T>)
    ensures
        r == *tx,
{
    tx.clone()
}

/// `Sender::try_send` of an outbound chunk: the message goes into the channel, or, where the
/// channel is full or its receiver gone, the channel refuses it and says which. Which of them
/// happens depends on the other ends of the channel, and is not stated.
#[verifier::external_body]
pub(crate) fn send_write(tx: &mut mpsc::Sender<StreamWriter>, message: StreamWriter) -> (r: Result<
    (),
    SendFailure,
>)
    ensures
        write_tx(*final(tx)) == (match r {
            Ok(()) => write_tx(*old(tx)).after(message),
            Err(failure) => write_tx(*old(tx)).refusing(message, failure),
        }),
{
    match tx.try_send(message) {
        Ok(()) => Ok(()),
        Err(mpsc::error::TrySendError::Full(_)) => Err(SendFailure::Full),
        Err(mpsc::error::TrySendError::Closed(_)) => Err(SendFailure::Closed),
    }
}

/// `Sender::try_send` of a close signal, as [`send_write`].
#[verifier::external_body]
pub(crate) fn send_close(tx: &mut mpsc::Sender<(u64, bool)>, message: (u64, bool)) -> (r: Result<
    (),
    SendFailure,
>)
    ensures
        close_tx(*final(tx)) == (match r {
            Ok(()) => close_tx(*old(tx)).after(message),
            Err(failure) => close_tx(*old(tx)).refusing(message, failure),
        }),
{
    match tx.try_send(message) {
        Ok(()) => Ok(()),
        Err(mpsc::error::TrySendError::Full(_)) => Err(SendFailure::Full),
        Err(mpsc::error::TrySendError::Closed(_)) => Err(SendFailure::Closed),
    }
}

/// `Sender::try_reserve_owned`: the handle with a place in the channel reserved for one message,
/// or, which counts as a miss, the handle back where the channel is full or its receiver gone.
/// Nothing is sent either way. Which of them happens depends on the other ends of the channel, and
/// is not stated.
#[verifier::external_body]
pub(crate) fn reserve_event(tx: mpsc::Sender<(u64, DriverEvent)>) -> (r: Result<
    mpsc::OwnedPermit<(u64, DriverEvent)>,
    mpsc::Sender<(u64, DriverEvent)>,
>)
    ensures
        match r {
            Ok(permit) => event_permit(permit) == event_tx(tx),
            Err(back) => event_tx(back) == event_tx(tx).missing(),
        },
{
    match tx.try_reserve_owned() {
        Ok(permit) => Ok(permit),
        Err(mpsc::error::TrySendError::Full(back)) => Err(back),
        Err(mpsc::error::TrySendError::Closed(back)) => Err(back),
    }
}

/// `OwnedPermit::send`: the message takes the reserved place, and the handle comes back.
#[verifier::external_body]
pub(crate) fn send_event(
    permit: mpsc::OwnedPermit<(u64, DriverEvent)>,
    message: (u64, DriverEvent),
) -> (r: mpsc::Sender<(u64, DriverEvent)>)
    ensures
        event_tx(r) == event_permit(permit).after(message),
{
    permit.send(message)
}

/// `OwnedPermit::release`: the reserved place is given up, and the handle comes back.
#[verifier::external_body]
pub(crate) fn release_event(permit: mpsc::OwnedPermit<(u64, DriverEvent)>) -> (r: mpsc::Sender<
    (u64, DriverEvent),
>)
    ensures
        event_tx(r) == event_permit(permit),
{
    permit.release()
}

/// `Receiver::try_recv` of an outbound chunk: the next message, or nothing, which counts as a miss,
/// where none waits. Which message comes depends on the sending ends, and is not stated.
#[verifier::external_body]
pub(crate) fn receive_write(rx: &mut mpsc::Receiver<StreamWriter>) -> (r: Option<StreamWriter>)
    ensures
        write_rx(*final(rx)) == (match r {
            Some(message) => write_rx(*old(rx)).after(message),
            None => write_rx(*old(rx)).missing(),
        }),
{
    rx.try_recv().ok()
}

/// `Receiver::try_recv` of a priority change, as [`receive_write`].
#[verifier::external_body]
pub(crate) fn receive_priority(rx: &mut mpsc::Receiver<StreamPriority>) -> (r: Option<
    StreamPriority,
>)
    ensures
        priority_rx(*final(rx)) == (match r {
            Some(message) => priority_rx(*old(rx)).after(message),
            None => priority_rx(*old(rx)).missing(),
        }),
{
    rx.try_recv().ok()
}

/// `Receiver::try_recv` of a driver's event, as [`receive_write`].
#[verifier::external_body]
pub(crate) fn receive_event(rx: &mut mpsc::Receiver<(u64, DriverEvent)>) -> (r: Option<
    (u64, DriverEvent),
>)
    ensures
        event_rx(*final(rx)) == (match r {
            Some(message) => event_rx(*old(rx)).after(message),
            None => event_rx(*old(rx)).missing(),
        }),
{
    rx.try_recv().ok()
}

/// `Receiver::try_recv` of a close signal, as [`receive_write`].
#[verifier::external_body]
pub(crate) fn receive_close(rx: &mut mpsc::Receiver<(u64, bool)>) -> (r: Option<(u64, bool)>)
    ensures
        close_rx(*final(rx)) == (match r {
            Some(message) => close_rx(*old(rx)).after(message),
            None => close_rx(*old(rx)).missing(),
        }),
{
    rx.try_recv().ok()
}

/// `Notify::new`: a wake-up signal that was never raised.
#[verifier::external_body]
pub(crate) fn new_notify() -> (r: Notify)
    ensures
        wakes(r) == 0,
{
    Notify::new()
}

/// `Arc::clone` of a wake-up signal: a second handle on the same signal.
#[verifier::external_body]
pub(crate) fn clone_notify(notify: &Arc<Notify>) -> (r: Arc<Notify>)
    ensures
        r == *notify,
{
    notify.clone()
}

/// `Notify::notify_one`: the signal is raised once, which wakes the task that waits on it, or the
/// next one to wait.
#[verifier::external_body]
pub(crate) fn wake(notify: &mut Arc<Notify>)
    ensures
        wakes(**final(notify)) == wakes(**old(notify)) + 1,
{
    notify.notify_one()
}

/// A message that goes through an end, one that is refused, and one that is asked for in vain each
/// leave their trace, once, at the end of what was there, and nothing else.
pub proof fn law_ends_remember_everything<T>(port: Port<T>, message: T, failure: SendFailure)
    ensures
        port.after(message) == (Port { log: port.log.push(message), ..port }),
        port.refusing(message, failure) == (Port {
            refused: port.refused.push((message, failure)),
            ..port
        }),
        port.missing() == (Port { misses: port.misses + 1, ..port }),
{
}

/// The ends of a new channel belong together, hold as much as was asked for, and have no history.
pub proof fn law_new_ends_have_no_history<T>(tx: Port<T>, rx: Port<T>, capacity: nat)
    requires
        fresh_pair(tx, rx, capacity),
    ensures
        tx.channel == rx.channel,
        tx.capacity == capacity,
        rx.capacity == capacity,
        tx.log.len() == 0,
        rx.log.len() == 0,
        tx.refused.len() == 0,
        tx.misses == 0,
        rx.misses == 0,
{
}

} // verus!
