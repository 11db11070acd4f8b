use bytes::Bytes;
use futures::FutureExt;
use quiche_socket::channel::SendFailure;
use quiche_socket::quiche::conn::{
    ConnState, DriverEvent, StreamPriority, STREAM_BUFFER_SIZE, WRITE_CHANNEL_CAPACITY,
};
use quiche_socket::quiche::driver::{
    ReadAction, ReadEvent, SendOutcome, StreamQuicDriver, WriteAction, WriteEvent,
};
use tokio::sync::mpsc;

struct Rig {
    state: ConnState<u8>,
    driver: StreamQuicDriver,
    events: mpsc::Receiver<(u64, DriverEvent)>,
    closes: mpsc::Receiver<(u64, bool)>,
    priorities: mpsc::Sender<StreamPriority>,
}

fn rig(places: usize) -> Rig {
    let (event_tx, events) = mpsc::channel(places);
    let (close_tx, closes) = mpsc::channel(1);
    let (priorities, priority_rx) = mpsc::channel(8);
    let (state, driver) =
        ConnState::build(7, "10.0.0.1:4433".to_string(), event_tx, close_tx, priority_rx);
    Rig { state, driver, events, closes, priorities }
}

/// What a driver reported, in a form that can be compared.
fn report(event: (u64, DriverEvent)) -> (u64, String, Vec<u8>, bool) {
    match event.1 {
        DriverEvent::NewBidi(s) => (event.0, format!("bidi {}", s), Vec::new(), false),
        DriverEvent::NewUni(s) => (event.0, format!("uni {}", s), Vec::new(), false),
        DriverEvent::Data { stream_id, data, fin } => {
            (event.0, format!("data {}", stream_id), data.to_vec(), fin)
        }
    }
}

fn receive(driver: &mut StreamQuicDriver, data: &[u8], fin: bool) -> ReadAction {
    driver.buffer()[..data.len()].copy_from_slice(data);
    driver.process_reads(ReadEvent::Received { n: data.len(), fin })
}

fn send_parts(action: WriteAction) -> (u64, Vec<u8>, bool) {
    match action {
        WriteAction::Send { stream_id, data, fin } => (stream_id, data.to_vec(), fin),
        _ => panic!("no chunk is tried"),
    }
}

#[test]
fn a_new_driver_is_idle() {
    let mut r = rig(4);
    assert_eq!(r.driver.conn_id, 7);
    assert!(!r.driver.should_act());
    assert_eq!(r.driver.buffer().len(), STREAM_BUFFER_SIZE);
    assert_eq!(STREAM_BUFFER_SIZE, 65536);
    assert_eq!(r.state.open_handle.write_tx.max_capacity(), WRITE_CHANNEL_CAPACITY);
    assert_eq!(WRITE_CHANNEL_CAPACITY, 256);
    assert_eq!(r.state.peer_addr, "10.0.0.1:4433");
    assert_eq!(r.state.open_handle.peer_addr, "10.0.0.1:4433");
    assert_eq!(r.state.open_handle.conn_id, 7);
    r.driver.on_conn_established();
    assert!(r.driver.should_act());
}

#[test]
fn client_streams_are_announced_as_what_they_are() {
    let mut r = rig(16);
    assert_eq!(r.driver.process_reads(ReadEvent::Start), ReadAction::Poll);
    assert_eq!(r.driver.process_reads(ReadEvent::Readable(Some(4))), ReadAction::Recv(4));
    assert_eq!(receive(&mut r.driver, b"hello", false), ReadAction::Recv(4));
    assert_eq!(r.driver.process_reads(ReadEvent::RecvFailed), ReadAction::Poll);
    assert_eq!(r.driver.process_reads(ReadEvent::Readable(Some(2))), ReadAction::Recv(2));
    assert_eq!(r.driver.process_reads(ReadEvent::RecvFailed), ReadAction::Poll);
    assert_eq!(r.driver.process_reads(ReadEvent::Readable(None)), ReadAction::Stop);
    assert_eq!(report(r.events.try_recv().unwrap()), (7, "bidi 4".to_string(), vec![], false));
    assert_eq!(
        report(r.events.try_recv().unwrap()),
        (7, "data 4".to_string(), b"hello".to_vec(), false)
    );
    assert_eq!(report(r.events.try_recv().unwrap()), (7, "uni 2".to_string(), vec![], false));
    assert!(r.events.try_recv().is_err());
}

#[test]
fn streams_of_the_server_are_not_announced() {
    let mut r = rig(16);
    assert_eq!(r.driver.process_reads(ReadEvent::Readable(Some(1))), ReadAction::Recv(1));
    assert_eq!(receive(&mut r.driver, b"x", false), ReadAction::Recv(1));
    assert_eq!(
        report(r.events.try_recv().unwrap()),
        (7, "data 1".to_string(), b"x".to_vec(), false)
    );
}

#[test]
fn an_open_stream_is_announced_once() {
    let mut r = rig(16);
    for _ in 0..3 {
        assert_eq!(r.driver.process_reads(ReadEvent::Readable(Some(8))), ReadAction::Recv(8));
        assert_eq!(r.driver.process_reads(ReadEvent::RecvFailed), ReadAction::Poll);
    }
    assert_eq!(report(r.events.try_recv().unwrap()).1, "bidi 8");
    assert!(r.events.try_recv().is_err());
    assert!(r.driver.seen_streams.contains(&8));
}

#[test]
fn a_stream_that_ended_is_forgotten() {
    let mut r = rig(16);
    r.driver.process_reads(ReadEvent::Readable(Some(0)));
    assert_eq!(receive(&mut r.driver, b"", true), ReadAction::Recv(0));
    assert!(!r.driver.seen_streams.contains(&0));
    r.driver.process_reads(ReadEvent::RecvFailed);
    r.driver.process_reads(ReadEvent::Readable(Some(0)));
    let got: Vec<String> =
        std::iter::from_fn(|| r.events.try_recv().ok()).map(|e| report(e).1).collect();
    assert_eq!(got, vec!["bidi 0", "data 0", "bidi 0"]);
}

#[test]
fn reads_keep_bytes_in_order() {
    let mut r = rig(16);
    r.driver.process_reads(ReadEvent::Readable(Some(4)));
    receive(&mut r.driver, b"ab", false);
    receive(&mut r.driver, b"cde", false);
    receive(&mut r.driver, b"f", true);
    let mut bytes: Vec<u8> = Vec::new();
    let mut fins: Vec<bool> = Vec::new();
    while let Ok(e) = r.events.try_recv() {
        let (_, what, data, fin) = report(e);
        if what == "data 4" {
            bytes.extend(data);
            fins.push(fin);
        }
    }
    assert_eq!(bytes, b"abcdef".to_vec());
    assert_eq!(fins, vec![false, false, true]);
}

#[test]
fn a_full_event_channel_stops_the_reads() {
    let mut r = rig(1);
    // One place: the announcement takes it, and there is none for data.
    assert_eq!(r.driver.process_reads(ReadEvent::Readable(Some(4))), ReadAction::Stop);
    assert!(r.driver.seen_streams.contains(&4));
    // Another stream is not even announced.
    assert_eq!(r.driver.process_reads(ReadEvent::Readable(Some(6))), ReadAction::Stop);
    assert!(!r.driver.seen_streams.contains(&6));
    assert_eq!(report(r.events.try_recv().unwrap()).1, "bidi 4");
    // With the place free again the read goes on, until the chunk has taken it.
    assert_eq!(r.driver.process_reads(ReadEvent::Readable(Some(4))), ReadAction::Recv(4));
    assert_eq!(receive(&mut r.driver, b"z", false), ReadAction::Stop);
    assert_eq!(report(r.events.try_recv().unwrap()).2, b"z".to_vec());
}

#[test]
fn a_reserved_place_is_given_back() {
    let mut r = rig(1);
    assert_eq!(r.driver.process_reads(ReadEvent::Readable(Some(1))), ReadAction::Recv(1));
    let tx = r.driver.reading.as_ref().map(|reading| reading.stream_id);
    assert_eq!(tx, Some(1));
    assert_eq!(r.driver.process_reads(ReadEvent::RecvFailed), ReadAction::Poll);
    assert_eq!(r.driver.event_tx.as_ref().unwrap().capacity(), 1);
}

#[test]
fn a_gone_server_stops_the_reads() {
    let mut r = rig(4);
    drop(r.events);
    assert_eq!(r.driver.process_reads(ReadEvent::Readable(Some(4))), ReadAction::Stop);
    assert!(!r.driver.seen_streams.contains(&4));
    assert!(r.driver.event_tx.is_some());
}

#[test]
fn the_reservation_decides_whether_a_stream_is_read() {
    let mut r = rig(1);
    let permit = r.driver.event_tx.take().unwrap().try_reserve_owned();
    assert!(permit.is_ok());
    assert!(r.driver.announce(6, permit.map_err(|_| panic!("there is a place"))));
    let full = r.driver.event_tx.take().unwrap();
    assert_eq!(r.driver.begin_recv(6, Err(full)), ReadAction::Stop);
    assert_eq!(report(r.events.try_recv().unwrap()).1, "uni 6");
    let permit = r.driver.event_tx.take().unwrap().try_reserve_owned();
    assert_eq!(
        r.driver.begin_recv(6, permit.map_err(|_| panic!("there is a place"))),
        ReadAction::Recv(6)
    );
}

#[test]
fn chunks_are_written_in_order() {
    let mut r = rig(4);
    let tx = r.state.open_handle.write_tx.clone();
    tx.try_send((4, Some(Bytes::from_static(b"one")), false)).unwrap();
    tx.try_send((4, Some(Bytes::from_static(b"two")), true)).unwrap();
    let first = r.driver.process_writes(WriteEvent::Start);
    assert_eq!(send_parts(first), (4, b"one".to_vec(), false));
    let second = r.driver.process_writes(WriteEvent::Sent(SendOutcome::Accepted(3)));
    assert_eq!(send_parts(second), (4, b"two".to_vec(), true));
    let third = r.driver.process_writes(WriteEvent::Sent(SendOutcome::Accepted(3)));
    assert!(matches!(third, WriteAction::Stop));
    assert!(r.driver.pending_writes.is_empty());
}

#[test]
fn a_part_that_was_not_taken_waits_at_the_head() {
    let mut r = rig(4);
    let tx = r.state.open_handle.write_tx.clone();
    tx.try_send((4, Some(Bytes::from_static(b"abcdef")), true)).unwrap();
    tx.try_send((4, Some(Bytes::from_static(b"gh")), false)).unwrap();
    r.driver.process_writes(WriteEvent::Start);
    let done = r.driver.process_writes(WriteEvent::Sent(SendOutcome::Accepted(2)));
    assert!(matches!(done, WriteAction::Stop));
    let again = r.driver.process_writes(WriteEvent::Start);
    assert_eq!(send_parts(again), (4, b"cdef".to_vec(), true));
    let done = r.driver.process_writes(WriteEvent::Sent(SendOutcome::Accepted(0)));
    assert!(matches!(done, WriteAction::Stop));
    let again = r.driver.process_writes(WriteEvent::Start);
    assert_eq!(send_parts(again), (4, b"cdef".to_vec(), true));
    let next = r.driver.process_writes(WriteEvent::Sent(SendOutcome::Accepted(4)));
    assert_eq!(send_parts(next), (4, b"gh".to_vec(), false));
}

#[test]
fn a_blocked_stream_does_not_hold_up_the_others() {
    let mut r = rig(4);
    let tx = r.state.open_handle.write_tx.clone();
    tx.try_send((4, Some(Bytes::from_static(b"a")), false)).unwrap();
    tx.try_send((8, Some(Bytes::from_static(b"b")), false)).unwrap();
    let mut tried: Vec<u64> = vec![send_parts(r.driver.process_writes(WriteEvent::Start)).0];
    let next = r.driver.process_writes(WriteEvent::Sent(SendOutcome::Blocked));
    tried.push(send_parts(next).0);
    tried.sort();
    assert_eq!(tried, vec![4, 8]);
    let done = r.driver.process_writes(WriteEvent::Sent(SendOutcome::Accepted(1)));
    assert!(matches!(done, WriteAction::Stop));
    assert_eq!(r.driver.pending_writes.len(), 1);
}

#[test]
fn a_chunk_that_failed_is_dropped() {
    let mut r = rig(4);
    let tx = r.state.open_handle.write_tx.clone();
    tx.try_send((4, Some(Bytes::from_static(b"a")), false)).unwrap();
    tx.try_send((4, Some(Bytes::from_static(b"b")), false)).unwrap();
    r.driver.process_writes(WriteEvent::Start);
    let next = r.driver.process_writes(WriteEvent::Sent(SendOutcome::Failed));
    assert_eq!(send_parts(next), (4, b"b".to_vec(), false));
    let done = r.driver.process_writes(WriteEvent::Sent(SendOutcome::Failed));
    assert!(matches!(done, WriteAction::Stop));
    assert!(r.driver.pending_writes.is_empty());
}

#[test]
fn a_message_without_data_is_an_empty_chunk() {
    let mut r = rig(4);
    r.driver.enqueue_write((12, None, true));
    let first = r.driver.process_writes(WriteEvent::Start);
    assert_eq!(send_parts(first), (12, vec![], true));
    let done = r.driver.process_writes(WriteEvent::Sent(SendOutcome::Accepted(0)));
    assert!(matches!(done, WriteAction::Stop));
    assert!(r.driver.pending_writes.is_empty());
}

#[test]
fn priorities_come_before_chunks() {
    let mut r = rig(4);
    let tx = r.state.open_handle.write_tx.clone();
    tx.try_send((4, Some(Bytes::from_static(b"a")), false)).unwrap();
    r.priorities.try_send((4, 3, true)).unwrap();
    r.priorities.try_send((8, 1, false)).unwrap();
    match r.driver.process_writes(WriteEvent::Start) {
        WriteAction::SetPriority { stream_id, urgency, incremental } => {
            assert_eq!((stream_id, urgency, incremental), (4, 3, true));
        }
        _ => panic!("the priority comes first"),
    }
    match r.driver.process_writes(WriteEvent::PrioritySet) {
        WriteAction::SetPriority { stream_id, urgency, incremental } => {
            assert_eq!((stream_id, urgency, incremental), (8, 1, false));
        }
        _ => panic!("the second priority comes next"),
    }
    let chunk = r.driver.process_writes(WriteEvent::PrioritySet);
    assert_eq!(send_parts(chunk), (4, b"a".to_vec(), false));
}

#[test]
fn nothing_to_write_stops_at_once() {
    let mut r = rig(4);
    assert!(matches!(r.driver.process_writes(WriteEvent::Start), WriteAction::Stop));
}

#[test]
fn the_end_of_a_connection_is_signalled() {
    let mut r = rig(4);
    assert_eq!(r.driver.on_conn_close(true, false), Ok(()));
    assert_eq!(r.closes.try_recv().unwrap(), (7, true));
    assert_eq!(r.driver.on_conn_close(false, false), Ok(()));
    assert_eq!(r.driver.on_conn_close(false, false), Err(SendFailure::Full));
    assert_eq!(r.closes.try_recv().unwrap(), (7, false));
    drop(r.closes);
    assert_eq!(r.driver.on_conn_close(true, false), Err(SendFailure::Closed));
}

#[test]
fn many_events_do_not_keep_a_close_signal_back() {
    let mut r = rig(1);
    assert_eq!(r.driver.process_reads(ReadEvent::Readable(Some(4))), ReadAction::Stop);
    assert_eq!(r.driver.on_conn_close(true, false), Ok(()));
    assert_eq!(r.closes.try_recv().unwrap(), (7, true));
}

#[test]
fn the_driver_and_its_record_share_the_wake_up_signal() {
    let r = rig(4);
    r.state.open_handle.write_notify.notify_one();
    assert!(r.driver.write_notify.notified().now_or_never().is_some());
    assert!(r.driver.write_notify.notified().now_or_never().is_none());
}

#[test]
fn the_priority_that_was_received_decides_what_is_done() {
    let mut r = rig(4);
    r.driver.enqueue_write((4, Some(Bytes::from_static(b"a")), true));
    match r.driver.begin_writes(Some((4, 5, false))) {
        WriteAction::SetPriority { stream_id, urgency, incremental } => {
            assert_eq!((stream_id, urgency, incremental), (4, 5, false));
        }
        _ => panic!("the priority comes first"),
    }
    assert_eq!(send_parts(r.driver.begin_writes(None)), (4, b"a".to_vec(), true));
}

#[test]
fn a_peer_that_went_silent_ended_the_connection() {
    let mut r = rig(4);
    assert_eq!(r.driver.on_conn_close(false, true), Ok(()));
    assert_eq!(r.closes.try_recv().unwrap(), (7, true));
    assert_eq!(r.driver.on_conn_close(true, true), Ok(()));
    assert_eq!(r.closes.try_recv().unwrap(), (7, true));
    assert_eq!(r.driver.on_conn_close(false, false), Ok(()));
    assert_eq!(r.closes.try_recv().unwrap(), (7, false));
}

#[test]
fn a_failed_read_does_not_end_the_pass() {
    let mut r = rig(16);
    let mut event = ReadEvent::Start;
    let mut readable = vec![2u64, 1, 8, 4];
    let mut read: Vec<u64> = Vec::new();
    loop {
        event = match r.driver.process_reads(event) {
            ReadAction::Poll => ReadEvent::Readable(readable.pop()),
            ReadAction::Recv(s) if s != 8 && !read.contains(&s) => {
                read.push(s);
                r.driver.buffer()[0] = s as u8;
                ReadEvent::Received { n: 1, fin: s == 2 }
            }
            ReadAction::Recv(_) => ReadEvent::RecvFailed,
            ReadAction::Stop => break,
        };
    }
    assert_eq!(read, vec![4, 1, 2]);
    let got: Vec<String> =
        std::iter::from_fn(|| r.events.try_recv().ok()).map(|e| report(e).1).collect();
    assert_eq!(got, vec!["bidi 4", "data 4", "bidi 8", "data 1", "uni 2", "data 2"]);
    let mut seen: Vec<u64> = r.driver.seen_streams.iter().copied().collect();
    seen.sort();
    assert_eq!(seen, vec![4, 8]);
}

#[test]
fn a_pass_leaves_only_what_was_not_taken() {
    let mut r = rig(4);
    for s in [4u64, 8, 12] {
        r.driver.enqueue_write((s, Some(Bytes::from_static(b"abc")), false));
        r.driver.enqueue_write((s, Some(Bytes::from_static(b"d")), true));
    }
    let mut action = r.driver.process_writes(WriteEvent::Start);
    while let WriteAction::Send { stream_id, data, .. } = action {
        let outcome = match stream_id {
            4 => SendOutcome::Accepted(data.len()),
            8 => SendOutcome::Blocked,
            _ => SendOutcome::Accepted(2),
        };
        action = r.driver.process_writes(WriteEvent::Sent(outcome));
    }
    assert!(matches!(action, WriteAction::Stop));
    let mut left: Vec<(u64, Vec<u8>)> = r
        .driver
        .pending_writes
        .iter()
        .map(|(s, queue)| (*s, queue.iter().flat_map(|c| c.0.to_vec()).collect()))
        .collect();
    left.sort();
    assert_eq!(left, vec![(8, b"abcd".to_vec()), (12, b"cd".to_vec())]);
}
