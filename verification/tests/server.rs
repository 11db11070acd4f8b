use bytes::Bytes;
use quiche_socket::conn::{QuicheServerSocket, SocketAddress};
use quiche_socket::php::{PhpClass, PhpValue, ValueType};
use quiche_socket::quiche::conn::{DriverEvent, PhpStreamCallbacks, STREAM_BUFFER_SIZE};
use quiche_socket::quiche::error::{BindError, BindErrorKind, QuicheError};
use quiche_socket::quiche::socket::{
    QuicheServerSocketImpl, ServerAction, ServerEvent, ServerInbox, Telling,
    CONN_CLOSE_CHANNEL_CAPACITY, SERVER_EVENT_CHANNEL_CAPACITY,
};
use tokio::sync::mpsc;

type Server = QuicheServerSocketImpl<&'static str>;

fn server() -> (Server, ServerInbox) {
    match QuicheServerSocketImpl::bind(&["127.0.0.1:19132"], Some("on_stream")) {
        Ok(bound) => bound,
        Err(e) => panic!("{}", e.message),
    }
}

fn connect(server: &mut Server, peer_addr: &str) -> u64 {
    let (_, priority_recv) = mpsc::channel(1);
    let event = ServerEvent::NewConn { peer_addr: peer_addr.to_string(), priority_recv };
    match server.tick(event, true) {
        ServerAction::Start(driver) => driver.conn_id,
        _ => panic!("a driver is started"),
    }
}

fn callable(name: &'static str) -> PhpValue<&'static str> {
    PhpValue { value_type: ValueType::Object, callable: true, value: name }
}

/// All that is to be told, in a fixed order.
fn told(server: &mut Server) -> Vec<(u64, u64, Option<&'static str>, bool)> {
    let mut all: Vec<(u64, u64, Option<&'static str>, bool)> = Vec::new();
    loop {
        match server.next_notice() {
            Telling::Tell(c, n) => all.push((c, n.stream_id, n.on_close, n.peer_closed)),
            Telling::Retired(c) => assert!(!server.connections.contains_key(&c)),
            Telling::Done => break,
        }
    }
    all.sort();
    all
}

#[test]
fn a_server_needs_an_address() {
    let none: [&str; 0] = [];
    match QuicheServerSocketImpl::<u8>::bind(&none, None) {
        Ok(_) => panic!("there is nothing to bind"),
        Err(e) => {
            assert_eq!(e.kind, BindErrorKind::InvalidInput);
            assert_eq!(e.message, "bind requires at least one socket address");
        }
    }
}

#[test]
fn a_new_server_has_no_connection() {
    let (s, inbox) = server();
    assert!(s.connections.is_empty());
    assert!(s.listening);
    assert_eq!(s.id_counter, 0);
    assert_eq!(s.server_event_tx.max_capacity(), SERVER_EVENT_CHANNEL_CAPACITY);
    assert_eq!(SERVER_EVENT_CHANNEL_CAPACITY, 8192);
    assert_eq!(s.conn_close_tx.max_capacity(), CONN_CLOSE_CHANNEL_CAPACITY);
    assert_eq!(CONN_CLOSE_CHANNEL_CAPACITY, 1024);
    assert!(inbox.server_event_rx.is_empty());
    assert!(inbox.conn_close_rx.is_empty());
}

#[test]
fn connections_are_numbered_in_order() {
    let (mut s, _inbox) = server();
    assert_eq!(connect(&mut s, "a"), 0);
    assert_eq!(connect(&mut s, "b"), 1);
    assert!(matches!(s.tick(ServerEvent::ConnClosed(0, true), true), ServerAction::Close));
    assert!(told(&mut s).is_empty());
    assert_eq!(connect(&mut s, "c"), 2);
    assert_eq!(s.connections.len(), 2);
    assert_eq!(s.connections[&1].peer_addr, "b");
}

#[test]
fn connection_numbers_wrap_around() {
    let (mut s, _inbox) = server();
    s.id_counter = u64::MAX;
    assert_eq!(connect(&mut s, "a"), u64::MAX);
    assert_eq!(connect(&mut s, "b"), 0);
}

#[test]
fn drivers_report_to_their_server() {
    let (mut s, mut inbox) = server();
    let (_, priority_recv) = mpsc::channel(1);
    let event = ServerEvent::NewConn { peer_addr: "a".to_string(), priority_recv };
    let mut driver = match s.tick(event, true) {
        ServerAction::Start(driver) => driver,
        _ => panic!("a driver is started"),
    };
    let tx = driver.event_tx.take().unwrap();
    tx.try_send((0, DriverEvent::NewUni(2))).unwrap();
    driver.event_tx = Some(tx);
    assert!(matches!(inbox.server_event_rx.try_recv(), Ok((0, DriverEvent::NewUni(2)))));
    assert_eq!(driver.on_conn_close(true, false), Ok(()));
    assert_eq!(inbox.conn_close_rx.try_recv().unwrap(), (0, true));
}

#[test]
fn a_bidirectional_stream_is_shown_to_the_script() {
    let (mut s, _inbox) = server();
    let c = connect(&mut s, "10.0.0.1:5000");
    match s.tick(ServerEvent::Driver(c, DriverEvent::NewBidi(4)), true) {
        ServerAction::ShowBidi { callback, bidi } => {
            assert_eq!(callback, Some("on_stream"));
            assert_eq!(bidi.get_conn_id(), c);
            assert_eq!(bidi.get_stream_id(), 4);
            assert_eq!(bidi.get_peer_addr(), "10.0.0.1:5000");
            assert_eq!(bidi.number, 0);
        }
        _ => panic!("the stream is shown"),
    }
    assert!(s.connections[&c].php_stream_callbacks.slots.contains_key(&4));
}

#[test]
fn a_unidirectional_stream_is_shown_to_the_script() {
    let (mut s, _inbox) = server();
    let c = connect(&mut s, "10.0.0.1:5000");
    s.tick(ServerEvent::Driver(c, DriverEvent::NewBidi(4)), true);
    match s.tick(ServerEvent::Driver(c, DriverEvent::NewUni(2)), true) {
        ServerAction::ShowUni { callback, uni } => {
            assert_eq!(callback, Some("on_stream"));
            assert_eq!(uni.get_stream_id(), 2);
            assert_eq!(uni.get_peer_addr(), "10.0.0.1:5000");
            assert_eq!(uni.number, 1);
        }
        _ => panic!("the stream is shown"),
    }
}

#[test]
fn data_goes_to_what_is_registered() {
    let (mut s, _inbox) = server();
    let c = connect(&mut s, "a");
    let mut stream = match s.dispatch_driver_event(c, DriverEvent::NewBidi(4)) {
        ServerAction::ShowBidi { bidi, .. } => bidi,
        _ => panic!("the stream is shown"),
    };
    let chunk = DriverEvent::Data { stream_id: 4, data: Bytes::from_static(b"x"), fin: false };
    match s.dispatch_driver_event(c, chunk) {
        ServerAction::Deliver { callback, .. } => assert_eq!(callback, None),
        _ => panic!("the data is handed over"),
    }
    stream.set_on_data(s.callbacks(c).unwrap(), callable("data")).unwrap();
    let chunk = DriverEvent::Data { stream_id: 4, data: Bytes::from_static(b"y"), fin: true };
    match s.dispatch_driver_event(c, chunk) {
        ServerAction::Deliver { callback, conn_id, stream_id, data, fin } => {
            assert_eq!(callback, Some("data"));
            assert_eq!((conn_id, stream_id, fin), (c, 4, true));
            assert_eq!(data.to_vec(), b"y".to_vec());
        }
        _ => panic!("the data is handed over"),
    }
}

#[test]
fn the_last_data_ends_the_stream_once() {
    let (mut s, _inbox) = server();
    let c = connect(&mut s, "a");
    let mut stream = match s.dispatch_driver_event(c, DriverEvent::NewUni(2)) {
        ServerAction::ShowUni { uni, .. } => uni,
        _ => panic!("the stream is shown"),
    };
    stream.set_on_close(s.callbacks(c).unwrap(), callable("closed")).unwrap();
    assert!(s.finish_data(c, 2, false).is_none());
    let n = s.finish_data(c, 2, true).unwrap();
    assert_eq!((n.stream_id, n.on_close, n.peer_closed), (2, Some("closed"), true));
    assert!(s.finish_data(c, 2, true).is_none());
    assert!(matches!(s.tick(ServerEvent::ConnClosed(c, false), true), ServerAction::Close));
    assert!(told(&mut s).is_empty());
}

#[test]
fn the_end_of_a_connection_is_told_to_its_streams() {
    let (mut s, _inbox) = server();
    let a = connect(&mut s, "a");
    let b = connect(&mut s, "b");
    s.tick(ServerEvent::Driver(a, DriverEvent::NewBidi(0)), true);
    s.tick(ServerEvent::Driver(a, DriverEvent::NewBidi(4)), true);
    s.tick(ServerEvent::Driver(b, DriverEvent::NewBidi(0)), true);
    let number = s.connections[&a].php_stream_callbacks.slots[&4].number;
    s.callbacks(a).unwrap().install_on_close(4, number, callable("four")).unwrap();
    assert!(matches!(s.tick(ServerEvent::ConnClosed(a, true), true), ServerAction::Close));
    assert!(matches!(s.tick(ServerEvent::ConnClosed(a, false), true), ServerAction::Wait));
    assert_eq!(told(&mut s), vec![(a, 0, None, true), (a, 4, Some("four"), true)]);
    assert!(matches!(s.tick(ServerEvent::ConnClosed(a, true), true), ServerAction::Wait));
    assert_eq!(s.connections.len(), 1);
    assert!(s.connections[&b].php_stream_callbacks.slots.contains_key(&0));
}

#[test]
fn what_comes_late_is_dropped() {
    let (mut s, _inbox) = server();
    let c = connect(&mut s, "a");
    s.tick(ServerEvent::ConnClosed(c, false), true);
    assert!(matches!(
        s.tick(ServerEvent::Driver(c, DriverEvent::NewUni(2)), true),
        ServerAction::Wait
    ));
    assert!(told(&mut s).is_empty());
    assert!(matches!(
        s.tick(ServerEvent::Driver(c, DriverEvent::NewBidi(4)), true),
        ServerAction::Wait
    ));
    let chunk = DriverEvent::Data { stream_id: 4, data: Bytes::new(), fin: true };
    assert!(matches!(s.tick(ServerEvent::Driver(c, chunk), true), ServerAction::Wait));
    assert!(s.finish_data(c, 4, true).is_none());
    assert!(s.callbacks(c).is_none());
}

#[test]
fn a_failed_accept_and_the_timer_change_nothing() {
    let (mut s, _inbox) = server();
    connect(&mut s, "a");
    assert!(matches!(s.tick(ServerEvent::AcceptError, true), ServerAction::Wait));
    assert!(matches!(s.tick(ServerEvent::Timer, true), ServerAction::Exit));
    assert_eq!(s.connections.len(), 1);
    assert_eq!(s.id_counter, 1);
}

#[test]
fn shutting_down_tells_every_stream() {
    let (mut s, _inbox) = server();
    let a = connect(&mut s, "a");
    let b = connect(&mut s, "b");
    let c = connect(&mut s, "c");
    s.tick(ServerEvent::Driver(a, DriverEvent::NewBidi(0)), true);
    s.tick(ServerEvent::Driver(b, DriverEvent::NewUni(2)), true);
    s.tick(ServerEvent::Driver(b, DriverEvent::NewUni(6)), true);
    s.close();
    assert_eq!(
        told(&mut s),
        vec![(a, 0, None, false), (b, 2, None, false), (b, 6, None, false)]
    );
    assert!(!s.connections.contains_key(&c));
    assert!(s.connections.is_empty());
    assert!(!s.listening);
    s.close();
    assert!(told(&mut s).is_empty());
}

#[test]
fn a_server_that_is_shut_down_accepts_nothing() {
    let (mut s, _inbox) = server();
    s.close();
    let (_, priority_recv) = mpsc::channel(1);
    let event = ServerEvent::NewConn { peer_addr: "a".to_string(), priority_recv };
    assert!(matches!(s.tick(event, true), ServerAction::Wait));
    assert!(s.connections.is_empty());
}

#[test]
fn slots_that_were_replaced_are_spent() {
    let (mut s, _inbox) = server();
    let c = connect(&mut s, "a");
    let mut stale = match s.tick(ServerEvent::Driver(c, DriverEvent::NewBidi(4)), true) {
        ServerAction::ShowBidi { bidi, .. } => bidi,
        _ => panic!("the stream is shown"),
    };
    stale.set_on_close(s.callbacks(c).unwrap(), callable("old")).unwrap();
    let mut fresh = match s.tick(ServerEvent::Driver(c, DriverEvent::NewBidi(4)), true) {
        ServerAction::ShowBidi { bidi, .. } => bidi,
        _ => panic!("the stream is shown"),
    };
    assert_ne!(stale.number, fresh.number);
    stale.set_on_close(s.callbacks(c).unwrap(), callable("older")).unwrap();
    fresh.set_on_close(s.callbacks(c).unwrap(), callable("new")).unwrap();
    stale.set_on_data(s.callbacks(c).unwrap(), callable("data")).unwrap();
    let n = s.finish_data(c, 4, true).unwrap();
    assert_eq!((n.number, n.on_close), (fresh.number, Some("new")));
}

#[test]
fn streams_that_the_server_opens_have_slots() {
    let (mut s, _inbox) = server();
    let c = connect(&mut s, "a");
    let incoming = match s.tick(ServerEvent::Driver(c, DriverEvent::NewUni(2)), true) {
        ServerAction::ShowUni { uni, .. } => uni,
        _ => panic!("the stream is shown"),
    };
    let mut bidi = incoming.open_bidi_stream(s.callbacks(c).unwrap(), 1);
    bidi.set_on_data(s.callbacks(c).unwrap(), callable("answer")).unwrap();
    let chunk = DriverEvent::Data { stream_id: 1, data: Bytes::from_static(b"hi"), fin: false };
    match s.tick(ServerEvent::Driver(c, chunk), true) {
        ServerAction::Deliver { callback, .. } => assert_eq!(callback, Some("answer")),
        _ => panic!("the data is handed over"),
    }
    let mut uni = incoming.open_uni_stream(s.callbacks(c).unwrap(), 3);
    uni.set_on_close(s.callbacks(c).unwrap(), callable("bye")).unwrap();
    assert!(matches!(s.tick(ServerEvent::ConnClosed(c, false), true), ServerAction::Close));
    assert_eq!(
        told(&mut s),
        vec![(c, 1, None, false), (c, 2, None, false), (c, 3, Some("bye"), false)]
    );
}

#[test]
fn an_object_of_an_ended_connection_can_still_be_used() {
    let (mut s, _inbox) = server();
    let c = connect(&mut s, "a");
    let mut stream = match s.tick(ServerEvent::Driver(c, DriverEvent::NewBidi(4)), true) {
        ServerAction::ShowBidi { bidi, .. } => bidi,
        _ => panic!("the stream is shown"),
    };
    s.tick(ServerEvent::ConnClosed(c, true), true);
    let mut gone: PhpStreamCallbacks<&'static str> = PhpStreamCallbacks::new();
    assert!(stream.set_on_data(&mut gone, callable("x")).is_ok());
    assert!(gone.slots.is_empty());
}

#[test]
fn an_address_is_written_with_its_port() {
    let mut a = SocketAddress::__construct("127.0.0.1".to_string(), 19132);
    assert_eq!(a.get_address_result(), "127.0.0.1:19132");
    a.set_address("::1".to_string());
    a.set_port(0);
    assert_eq!(a.get_address(), "::1");
    assert_eq!(a.get_port(), 0);
    assert_eq!(a.get_address_result(), "::1:0");
}

#[test]
fn a_server_object_wants_a_callback() {
    let a = SocketAddress::__construct("h".to_string(), 1);
    let types = [
        (ValueType::Null, "null"),
        (ValueType::Bool, "bool"),
        (ValueType::Long, "int"),
        (ValueType::Double, "float"),
        (ValueType::Text, "string"),
        (ValueType::Array, "array"),
        (ValueType::Object, "object"),
        (ValueType::Resource, "resource"),
        (ValueType::Other, "unknown"),
    ];
    for (value_type, name) in types {
        let value = PhpValue { value_type, callable: false, value: 0u8 };
        match QuicheServerSocket::prepare(vec![&a], -1, value) {
            Ok(_) => panic!("the value cannot be called"),
            Err(e) => {
                assert_eq!(e.class, PhpClass::InvalidArgumentException);
                assert_eq!(
                    e.message,
                    format!(
                        "The $on_stream argument must be a callable (function, closure, or invokable object). Received: {}",
                        name
                    )
                );
            }
        }
    }
}

#[test]
fn a_server_object_plans_its_sockets() {
    let a = SocketAddress::__construct("127.0.0.1".to_string(), 1);
    let b = SocketAddress::__construct("0.0.0.0".to_string(), 65535);
    let plan = QuicheServerSocket::prepare(vec![&a, &b], -1, callable("f")).unwrap();
    assert_eq!(plan.addrs, vec!["127.0.0.1:1", "0.0.0.0:65535"]);
    assert_eq!(plan.event_fd, None);
    assert_eq!(plan.on_stream, "f");
    let plan = QuicheServerSocket::prepare(vec![], 0, callable("f")).unwrap();
    assert!(plan.addrs.is_empty());
    assert_eq!(plan.event_fd, Some(0));
    let plan = QuicheServerSocket::prepare(vec![&a], 12, callable("f")).unwrap();
    assert_eq!(plan.event_fd, Some(12));
}

#[test]
fn a_server_object_that_cannot_bind_tells_why() {
    let bound: Result<QuicheServerSocketImpl<u8>, BindError> =
        Err(BindError { kind: BindErrorKind::System, message: "address in use".to_string() });
    match QuicheServerSocket::__construct(bound, None) {
        Ok(_) => panic!("nothing was bound"),
        Err(e) => {
            assert_eq!(e.to_text(), "failed to initialize tokio runtime: address in use");
            assert!(matches!(e, QuicheError::RuntimeInit(_)));
        }
    }
}

#[test]
fn a_server_object_runs_and_closes() {
    let (s, _inbox) = server();
    let mut object = QuicheServerSocket::__construct(Ok(s), None).unwrap();
    let (_, priority_recv) = mpsc::channel(1);
    let event = ServerEvent::NewConn { peer_addr: "a".to_string(), priority_recv };
    assert!(matches!(object.tick(event), ServerAction::Start(_)));
    assert!(matches!(object.tick(ServerEvent::Timer), ServerAction::Exit));
    object.close();
    assert!(matches!(object.inner.next_notice(), Telling::Retired(0)));
    assert!(matches!(object.inner.next_notice(), Telling::Done));
    assert!(object.event_fd.is_none());
    assert!(matches!(object.tick(ServerEvent::Exhausted), ServerAction::Exit));
}

#[test]
fn an_ended_source_gives_control_back_where_the_script_cannot_ask_for_it() {
    let (mut s, _inbox) = server();
    assert!(matches!(s.tick(ServerEvent::Exhausted, true), ServerAction::Wait));
    assert!(matches!(s.tick(ServerEvent::Exhausted, false), ServerAction::Exit));
}

#[test]
fn what_a_driver_reported_comes_before_its_end() {
    let (s, mut inbox) = server();
    assert!(inbox.next_event().is_none());
    s.conn_close_tx.try_send((3, true)).unwrap();
    s.server_event_tx.try_send((3, DriverEvent::NewBidi(4))).unwrap();
    s.server_event_tx.try_send((3, DriverEvent::NewUni(2))).unwrap();
    assert!(matches!(inbox.next_event(), Some(ServerEvent::Driver(3, DriverEvent::NewBidi(4)))));
    assert!(matches!(inbox.next_event(), Some(ServerEvent::Driver(3, DriverEvent::NewUni(2)))));
    assert!(matches!(inbox.next_event(), Some(ServerEvent::ConnClosed(3, true))));
    assert!(inbox.next_event().is_none());
}

#[test]
fn a_new_driver_comes_with_its_buffer() {
    let (mut s, _inbox) = server();
    let (_, priority_recv) = mpsc::channel(1);
    let event = ServerEvent::NewConn { peer_addr: "a".to_string(), priority_recv };
    match s.tick(event, true) {
        ServerAction::Start(driver) => {
            assert_eq!(driver.io_worker_buf, vec![0u8; STREAM_BUFFER_SIZE]);
        }
        _ => panic!("a driver is started"),
    }
}

#[test]
fn a_callback_registered_while_others_are_told_is_called() {
    let (mut s, _inbox) = server();
    let c = connect(&mut s, "a");
    for id in [4u64, 8] {
        s.tick(ServerEvent::Driver(c, DriverEvent::NewBidi(id)), true);
        let number = s.connections[&c].php_stream_callbacks.slots[&id].number;
        s.callbacks(c).unwrap().install_on_close(id, number, callable("old")).unwrap();
    }
    s.tick(ServerEvent::ConnClosed(c, true), true);
    let first = match s.next_notice() {
        Telling::Tell(_, n) => n,
        _ => panic!("a stream is told"),
    };
    assert_eq!(first.on_close, Some("old"));
    let other = 12 - first.stream_id;
    let number = s.connections[&c].php_stream_callbacks.slots[&other].number;
    s.callbacks(c).unwrap().install_on_close(other, number, callable("new")).unwrap();
    assert_eq!(told(&mut s), vec![(c, other, Some("new"), true)]);
}

#[test]
fn the_first_end_of_a_stream_decides_what_is_told() {
    let (mut s, _inbox) = server();
    let c = connect(&mut s, "a");
    for id in [4u64, 8] {
        s.tick(ServerEvent::Driver(c, DriverEvent::NewBidi(id)), true);
    }
    assert!(s.finish_data(c, 4, true).unwrap().peer_closed);
    s.close();
    assert!(s.finish_data(c, 8, true).is_none());
    assert!(matches!(s.tick(ServerEvent::ConnClosed(c, true), true), ServerAction::Wait));
    assert_eq!(told(&mut s), vec![(c, 8, None, false)]);
}

#[test]
fn shutting_down_lists_each_connection_once() {
    let (mut s, _inbox) = server();
    let a = connect(&mut s, "a");
    let b = connect(&mut s, "b");
    let c = connect(&mut s, "c");
    s.tick(ServerEvent::ConnClosed(b, true), true);
    assert_eq!(s.closing, vec![b]);
    s.close();
    assert_eq!(s.closing[0], b);
    let mut added: Vec<u64> = s.closing[1..].to_vec();
    added.sort();
    assert_eq!(added, vec![a, c]);
    s.close();
    assert_eq!(s.closing.len(), 3);
}
