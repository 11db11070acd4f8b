use bytes::Bytes;
use futures::FutureExt;
use quiche_socket::channel::SendFailure;
use quiche_socket::php::{PhpClass, PhpValue, ValueType};
use quiche_socket::quiche::conn::{
    make_slot_pair, ConnOpenHandle, PhpStreamCallbacks, StreamWriter,
};
use quiche_socket::quiche::data::{ReadHalf, StreamDataEvent, WriteHalf};
use quiche_socket::quiche::stream::{
    AcceptedRemoteStream, BiDirectionalQuicheStream, QuicheReadable, QuicheStream, QuicheWriteable,
    ReadableQuicheStream, WriteableQuicheStream,
};
use quiche_socket::stream::{
    finish_write, install_slot, BidiStream, IncomingBidiStream, IncomingUniStream, UniStream,
};
use std::sync::Arc;
use tokio::sync::{mpsc, Notify};

fn handle(places: usize) -> (ConnOpenHandle, mpsc::Receiver<StreamWriter>) {
    let (write_tx, write_rx) = mpsc::channel(places);
    let handle = ConnOpenHandle {
        conn_id: 3,
        peer_addr: "10.0.0.9:7".to_string(),
        write_tx,
        write_notify: Arc::new(Notify::new()),
    };
    (handle, write_rx)
}

fn incoming_bidi(places: usize) -> (IncomingBidiStream, mpsc::Receiver<StreamWriter>) {
    let (conn_handle, rx) = handle(places);
    let stream = IncomingBidiStream {
        conn_id: 3,
        stream_id: 4,
        peer_addr: "10.0.0.9:7".to_string(),
        write_tx: conn_handle.write_tx.clone(),
        write_notify: conn_handle.write_notify.clone(),
        number: 0,
        conn_handle,
    };
    (stream, rx)
}

fn incoming_uni() -> (IncomingUniStream, mpsc::Receiver<StreamWriter>) {
    let (conn_handle, rx) = handle(4);
    let stream = IncomingUniStream {
        conn_id: 3,
        stream_id: 2,
        peer_addr: "10.0.0.9:7".to_string(),
        number: 0,
        conn_handle,
    };
    (stream, rx)
}

fn value(callable: bool, value: u8) -> PhpValue<u8> {
    PhpValue { value_type: ValueType::Long, callable, value }
}

fn registry(stream_id: u64) -> PhpStreamCallbacks<u8> {
    let mut callbacks = PhpStreamCallbacks::new();
    assert_eq!(callbacks.register(stream_id), 0);
    callbacks
}

fn woken(notify: &Notify) -> bool {
    notify.notified().now_or_never().is_some()
}

#[test]
fn slots_start_empty() {
    let (on_data, on_close) = make_slot_pair::<u8>();
    assert!(on_data.is_none());
    assert!(on_close.is_none());
}

#[test]
fn only_what_can_be_called_is_registered() {
    let mut slot = Some(1u8);
    let e = install_slot(&mut slot, value(false, 2), "setOnData").unwrap_err();
    assert_eq!(e.class, PhpClass::Exception);
    assert_eq!(e.message, "setOnData expects a callable");
    assert_eq!(slot, Some(1));
    assert!(install_slot(&mut slot, value(true, 2), "setOnData").is_ok());
    assert_eq!(slot, Some(2));
}

#[test]
fn every_stream_object_registers_callbacks() {
    let (mut a, _a) = incoming_bidi(1);
    let mut callbacks = registry(4);
    assert!(a.set_on_data(&mut callbacks, value(true, 10)).is_ok());
    assert!(a.set_on_close(&mut callbacks, value(true, 11)).is_ok());
    assert_eq!(callbacks.slots[&4].on_data, Some(10));
    assert_eq!(callbacks.slots[&4].on_close, Some(11));
    let e = a.set_on_close(&mut callbacks, value(false, 12)).unwrap_err();
    assert_eq!(e.message, "setOnClose expects a callable");
    assert_eq!(callbacks.slots[&4].on_close, Some(11));

    let (mut b, _b) = incoming_uni();
    let mut callbacks = registry(2);
    assert!(b.set_on_data(&mut callbacks, value(true, 20)).is_ok());
    assert!(b.set_on_close(&mut callbacks, value(true, 21)).is_ok());
    assert_eq!(callbacks.slots[&2].on_data, Some(20));
    assert_eq!(callbacks.slots[&2].on_close, Some(21));

    let mut callbacks: PhpStreamCallbacks<u8> = PhpStreamCallbacks::new();
    let mut c: BidiStream = b.open_bidi_stream(&mut callbacks, 1);
    let mut d: UniStream = b.open_uni_stream(&mut callbacks, 3);
    assert_eq!((c.number, d.number), (0, 1));
    assert!(c.set_on_data(&mut callbacks, value(true, 30)).is_ok());
    assert!(c.set_on_close(&mut callbacks, value(true, 31)).is_ok());
    assert!(d.set_on_close(&mut callbacks, value(true, 41)).is_ok());
    assert_eq!(callbacks.slots[&1].on_data, Some(30));
    assert_eq!(callbacks.slots[&1].on_close, Some(31));
    assert_eq!(callbacks.slots[&3].on_data, None);
    assert_eq!(callbacks.slots[&3].on_close, Some(41));
}

#[test]
fn an_object_with_spent_slots_registers_nothing() {
    let (mut a, _rx) = incoming_bidi(1);
    let mut callbacks = registry(4);
    callbacks.register(4);
    assert!(a.set_on_data(&mut callbacks, value(true, 1)).is_ok());
    assert!(callbacks.slots[&4].on_data.is_none());
    assert!(a.set_on_close(&mut callbacks, value(false, 1)).is_err());
}

#[test]
fn stream_numbers_wrap_around() {
    let mut callbacks: PhpStreamCallbacks<u8> = PhpStreamCallbacks::new();
    callbacks.next_number = u64::MAX;
    assert_eq!(callbacks.register(4), u64::MAX);
    assert_eq!(callbacks.register(8), 0);
}

#[test]
fn streams_end_one_by_one() {
    let mut callbacks: PhpStreamCallbacks<u8> = PhpStreamCallbacks::new();
    assert!(callbacks.any_stream().is_none());
    callbacks.register(4);
    let n = callbacks.register(8);
    callbacks.install_on_close(8, n, value(true, 9)).unwrap();
    let mut all: Vec<(u64, u64, Option<u8>, bool)> = Vec::new();
    while let Some(s) = callbacks.any_stream() {
        let n = callbacks.finish(s, true).unwrap();
        all.push((n.stream_id, n.number, n.on_close, n.peer_closed));
    }
    all.sort();
    assert_eq!(all, vec![(4, 0, None, true), (8, 1, Some(9), true)]);
    assert!(callbacks.slots.is_empty());
    assert!(callbacks.finish(4, true).is_none());
}

#[test]
fn a_write_reaches_the_driver_and_wakes_it() {
    let (mut a, mut rx) = incoming_bidi(4);
    let notify = a.conn_handle.write_notify.clone();
    assert!(!woken(&notify));
    assert!(a.write(b"hello", false).is_ok());
    assert!(woken(&notify));
    let (id, data, fin) = rx.try_recv().unwrap();
    assert_eq!((id, data.unwrap().to_vec(), fin), (4, b"hello".to_vec(), false));
    assert!(a.close().is_ok());
    assert!(woken(&notify));
    let (id, data, fin) = rx.try_recv().unwrap();
    assert_eq!((id, data.unwrap().to_vec(), fin), (4, vec![], true));
    assert!(rx.try_recv().is_err());
}

#[test]
fn streams_of_the_server_write_too() {
    let (b, mut rx) = incoming_uni();
    let mut callbacks: PhpStreamCallbacks<u8> = PhpStreamCallbacks::new();
    let mut c: BidiStream = b.open_bidi_stream(&mut callbacks, 1);
    let mut d: UniStream = b.open_uni_stream(&mut callbacks, 3);
    assert!(c.write(b"1", true).is_ok());
    assert!(d.write(b"2", false).is_ok());
    assert!(c.close().is_ok());
    assert!(d.close().is_ok());
    let got: Vec<(u64, Vec<u8>, bool)> = std::iter::from_fn(|| rx.try_recv().ok())
        .map(|(id, data, fin)| (id, data.unwrap().to_vec(), fin))
        .collect();
    assert_eq!(
        got,
        vec![
            (1, b"1".to_vec(), true),
            (3, b"2".to_vec(), false),
            (1, vec![], true),
            (3, vec![], true),
        ]
    );
}

#[test]
fn a_full_channel_is_told() {
    let (mut a, _rx) = incoming_bidi(1);
    let notify = a.conn_handle.write_notify.clone();
    assert!(a.write(b"a", false).is_ok());
    assert!(woken(&notify));
    let e = a.write(b"b", false).unwrap_err();
    assert_eq!(e.class, PhpClass::Exception);
    assert_eq!(e.message, "write failed: no available capacity");
    assert_eq!(a.close().unwrap_err().message, "close failed: no available capacity");
    assert!(!woken(&notify));
}

#[test]
fn a_gone_driver_is_told() {
    let (mut a, rx) = incoming_bidi(1);
    drop(rx);
    assert_eq!(a.write(b"a", false).unwrap_err().message, "write failed: channel closed");
    assert_eq!(a.close().unwrap_err().message, "close failed: channel closed");
}

#[test]
fn what_the_channel_said_decides_what_the_script_gets() {
    let mut notify = Arc::new(Notify::new());
    assert!(finish_write(&mut notify, "write", Ok(())).is_ok());
    assert!(woken(&notify));
    let e = finish_write(&mut notify, "close", Err(SendFailure::Full)).unwrap_err();
    assert_eq!(e.message, "close failed: no available capacity");
    assert!(!woken(&notify));
}

#[test]
fn stream_objects_tell_who_they_are() {
    let (a, _a) = incoming_bidi(1);
    assert_eq!((a.get_conn_id(), a.get_stream_id()), (3, 4));
    assert_eq!(a.get_peer_addr(), "10.0.0.9:7");
    let (b, _b) = incoming_uni();
    assert_eq!((b.get_conn_id(), b.get_stream_id()), (3, 2));
    assert_eq!(b.get_peer_addr(), "10.0.0.9:7");
    let mut callbacks: PhpStreamCallbacks<u8> = PhpStreamCallbacks::new();
    let c = a.open_bidi_stream(&mut callbacks, 1);
    let d = a.open_uni_stream(&mut callbacks, 3);
    assert_eq!((c.get_conn_id(), c.get_stream_id()), (3, 1));
    assert_eq!((d.get_conn_id(), d.get_stream_id()), (3, 3));
    assert!(callbacks.slots.contains_key(&1));
    assert!(callbacks.slots.contains_key(&3));
}

fn halves() -> (ReadHalf, WriteHalf) {
    let (write_tx, _write_rx) = mpsc::channel(1);
    let (_read_tx, read_rx) = mpsc::channel(1);
    (
        ReadHalf { conn_id: 1, stream_id: 8, peer_addr: "p".to_string(), read_rx },
        WriteHalf {
            conn_id: 1,
            stream_id: 8,
            peer_addr: "p".to_string(),
            write_tx,
            write_notify: Arc::new(Notify::new()),
        },
    )
}

#[test]
fn a_readable_half_tells_where_data_came_from() {
    let (read, _write) = halves();
    assert!(read.read(None).is_none());
    let e = read.read(Some((Some(Bytes::from_static(b"q")), true, false))).unwrap();
    assert_eq!((e.conn_id, e.stream_id, e.fin, e.closed), (1, 8, true, false));
    assert_eq!(e.peer_addr, "p");
    assert_eq!(e.data.unwrap().to_vec(), b"q".to_vec());
}

#[test]
fn a_writeable_half_wakes_the_driver() {
    let (_read, mut write) = halves();
    let (id, data, fin) = write.write(Bytes::from_static(b"w"), true);
    assert_eq!((id, data.unwrap().to_vec(), fin), (8, b"w".to_vec(), true));
    assert_eq!(write.written(false), Err(SendFailure::Closed));
    assert!(!woken(&write.write_notify));
    assert_eq!(write.written(true), Ok(()));
    assert!(woken(&write.write_notify));
}

#[test]
fn accepted_streams_are_read_by_their_kind() {
    let (read, _) = halves();
    let uni = AcceptedRemoteStream::Readable(ReadableQuicheStream { inner: read });
    assert_eq!(uni.stream_id(), 8);
    assert_eq!(uni.peer_addr(), "p");
    assert!(uni.read(None).is_none());
    let (read, write) = halves();
    let bidi = AcceptedRemoteStream::BiDirectional(BiDirectionalQuicheStream { read, write });
    assert_eq!(bidi.stream_id(), 8);
    assert_eq!(bidi.peer_addr(), "p");
    assert_eq!(bidi.read(Some((None, false, true))).unwrap().closed, true);
}

#[test]
fn a_bidirectional_stream_parts_into_its_halves() {
    let (read, write) = halves();
    let stream = BiDirectionalQuicheStream { read, write };
    assert_eq!((stream.conn_id(), stream.stream_id()), (1, 8));
    assert_eq!(QuicheWriteable::write(&stream, Bytes::new(), true).0, 8);
    assert!(QuicheReadable::read(&stream, None).is_none());
    let (r, w): (ReadableQuicheStream, WriteableQuicheStream) = stream.split();
    assert_eq!((r.conn_id(), r.stream_id()), (1, 8));
    assert_eq!((w.conn_id(), w.stream_id()), (1, 8));
    assert_eq!(w.write(Bytes::new(), false).2, false);
    assert!(r.read(None).is_none());
}

#[test]
fn an_event_is_written_in_one_line() {
    let mut e = StreamDataEvent {
        conn_id: 1,
        stream_id: 12,
        peer_addr: "127.0.0.1:443".to_string(),
        data: Some(Bytes::from_static(b"a\"\\\n\r\t\0\x7f\xff z")),
        fin: true,
        closed: false,
    };
    assert_eq!(
        e.to_text(),
        "[stream=12][peer=127.0.0.1:443][fin=true] 11 byte(s): Some(b\"a\\\"\\\\\\n\\r\\t\\0\\x7f\\xff z\")"
    );
    e.data = None;
    e.fin = false;
    assert_eq!(e.to_text(), "[stream=12][peer=127.0.0.1:443][fin=false] 0 byte(s): None");
}

#[test]
fn closing_is_writing_an_empty_last_chunk() {
    let (mut a, mut a_rx) = incoming_bidi(1);
    let (mut b, mut b_rx) = incoming_bidi(1);
    assert!(a.write(b"", true).is_ok());
    assert!(b.close().is_ok());
    assert!(woken(&a.write_notify));
    assert!(woken(&b.write_notify));
    assert_eq!(a.write(b"", true).unwrap_err().message, "write failed: no available capacity");
    assert_eq!(b.close().unwrap_err().message, "close failed: no available capacity");
    assert!(!woken(&b.write_notify));
    assert_eq!(a_rx.try_recv().unwrap(), b_rx.try_recv().unwrap());
}

#[test]
fn reads_follow_the_messages() {
    let (tx, read_rx) = mpsc::channel(4);
    let mut half = ReadHalf { conn_id: 1, stream_id: 8, peer_addr: "p".to_string(), read_rx };
    tx.try_send((Some(Bytes::from_static(b"1")), true, false)).unwrap();
    tx.try_send((None, false, true)).unwrap();
    tx.try_send((Some(Bytes::from_static(b"2")), false, false)).unwrap();
    drop(tx);
    let mut got: Vec<Option<(Option<Vec<u8>>, bool, bool)>> = Vec::new();
    for _ in 0..5 {
        let received = half.read_rx.try_recv().ok();
        let event = half.read(received);
        got.push(event.map(|e| (e.data.map(|d| d.to_vec()), e.fin, e.closed)));
    }
    assert_eq!(
        got,
        vec![
            Some((Some(b"1".to_vec()), true, false)),
            Some((None, false, true)),
            Some((Some(b"2".to_vec()), false, false)),
            None,
            None,
        ]
    );
}
