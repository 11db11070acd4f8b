use quiche_socket::config::{Config, QuicSettings, Timeout};
use quiche_socket::php::PhpClass;
use quiche_socket::quiche::error::QuicheError;
use quiche_socket::quiche::runtime::{
    parse_setting, worker_thread_count, MIN_WORKER_THREADS,
};
use quiche_socket::text::{append_integer, append_number, parse_number};

fn settings() -> QuicSettings {
    QuicSettings {
        alpn: Vec::new(),
        enable_dgram: true,
        dgram_recv_max_queue_len: 65536,
        dgram_send_max_queue_len: 65536,
        enable_early_data: false,
        initial_max_data: 10000000,
        initial_max_stream_data_bidi_local: 1000000,
        initial_max_stream_data_bidi_remote: 1000000,
        initial_max_stream_data_uni: 1000000,
        initial_max_streams_bidi: 100,
        initial_max_streams_uni: 100,
        max_idle_timeout: Some(Timeout { secs: 56, nanos: 0 }),
        disable_active_migration: true,
        active_connection_id_limit: 2,
        max_recv_udp_payload_size: 1350,
        max_send_udp_payload_size: 1350,
        disable_client_ip_validation: false,
        keylog_file: None,
        qlog_dir: None,
        cc_algorithm: "cubic".to_string(),
        initial_congestion_window_packets: 10,
        enable_relaxed_loss_threshold: false,
        discover_path_mtu: false,
        pmtud_max_probes: 3,
        enable_hystart: true,
        enable_pacing: false,
        max_pacing_rate: None,
        enable_expensive_packet_count_metrics: false,
        capture_quiche_logs: false,
        handshake_timeout: None,
        listen_backlog: 1024,
        verify_peer: false,
        max_connection_window: 25165824,
        max_stream_window: 16777216,
        enable_send_streams_blocked: false,
        grease: true,
        max_amplification_factor: 3,
        send_capacity_factor: 1.0f64.to_bits(),
        ack_delay_exponent: 3,
        max_ack_delay: 25,
        max_path_challenge_recv_queue_len: 3,
        stateless_reset_token: None,
        disable_dcid_reuse: false,
        track_unknown_transport_parameters: None,
    }
}

fn config() -> Config {
    Config::__construct("cert.pem".to_string(), "key.pem".to_string(), settings())
}

#[test]
fn a_configuration_starts_with_the_given_settings() {
    let c = config();
    assert_eq!(c.get_cert_path(), "cert.pem");
    assert_eq!(c.get_key_path(), "key.pem");
    assert_eq!(c.get_initial_max_data(), 10000000);
    assert_eq!(c.get_max_idle_timeout(), Some(56000));
    assert_eq!(c.get_handshake_timeout(), None);
    assert_eq!(c.get_cc_algorithm(), "cubic");
}

#[test]
fn protocols_are_shown_as_given() {
    let mut c = config();
    c.set_alpn(vec!["rquic".to_string(), "h\u{e9}".to_string(), "".to_string()]);
    assert_eq!(c.inner.alpn, vec![b"rquic".to_vec(), vec![0x68, 0xc3, 0xa9], vec![]]);
    assert_eq!(c.get_alpn(), vec!["rquic", "h\u{e9}", ""]);
    c.inner.alpn = vec![vec![0x61, 0xff, 0x62]];
    assert_eq!(c.get_alpn(), vec!["a\u{fffd}b"]);
    c.set_alpn(vec![]);
    assert!(c.get_alpn().is_empty());
}

#[test]
fn timeouts_are_given_in_milliseconds() {
    let mut c = config();
    c.set_max_idle_timeout(Some(1500));
    assert_eq!(c.inner.max_idle_timeout, Some(Timeout { secs: 1, nanos: 500000000 }));
    assert_eq!(c.get_max_idle_timeout(), Some(1500));
    c.set_max_idle_timeout(None);
    assert_eq!(c.get_max_idle_timeout(), None);
    c.set_handshake_timeout(Some(u64::MAX));
    assert_eq!(c.get_handshake_timeout(), Some(u64::MAX));
    c.inner.handshake_timeout = Some(Timeout { secs: 2, nanos: 999999999 });
    assert_eq!(c.get_handshake_timeout(), Some(2999));
    c.inner.handshake_timeout = Some(Timeout { secs: u64::MAX, nanos: 0 });
    let whole: u128 = u64::MAX as u128 * 1000;
    assert_eq!(c.get_handshake_timeout(), Some(whole as u64));
}

#[test]
fn a_reset_token_is_written_in_hexadecimal() {
    let mut c = config();
    assert_eq!(c.get_stateless_reset_token(), None);
    c.set_stateless_reset_token(Some("00DEADbeef".to_string()));
    assert_eq!(c.inner.stateless_reset_token, Some(0xdeadbeef));
    assert_eq!(c.get_stateless_reset_token(), Some("deadbeef".to_string()));
    for bad in ["", "+", "-1", "xyz", "0x10", " 1", "1_0"] {
        c.set_stateless_reset_token(Some(bad.to_string()));
        assert_eq!(c.inner.stateless_reset_token, Some(0xdeadbeef));
    }
    c.set_stateless_reset_token(Some("100000000000000000000000000000000".to_string()));
    assert_eq!(c.inner.stateless_reset_token, Some(0xdeadbeef));
    c.set_stateless_reset_token(Some("+ffffffffffffffffffffffffffffffff".to_string()));
    assert_eq!(c.inner.stateless_reset_token, Some(u128::MAX));
    assert_eq!(
        c.get_stateless_reset_token(),
        Some("ffffffffffffffffffffffffffffffff".to_string())
    );
    c.set_stateless_reset_token(None);
    assert_eq!(c.inner.stateless_reset_token, None);
}

#[test]
fn switches_are_kept() {
    let mut c = config();
    c.set_enable_dgram(false);
    c.set_enable_early_data(true);
    c.set_disable_active_migration(false);
    c.set_disable_client_ip_validation(true);
    c.set_enable_relaxed_loss_threshold(true);
    c.set_discover_path_mtu(true);
    c.set_enable_hystart(false);
    c.set_enable_pacing(true);
    c.set_enable_expensive_packet_count_metrics(true);
    c.set_capture_quiche_logs(true);
    c.set_verify_peer(true);
    c.set_enable_send_streams_blocked(true);
    c.set_grease(false);
    c.set_disable_dcid_reuse(true);
    assert!(!c.get_enable_dgram());
    assert!(c.get_enable_early_data());
    assert!(!c.get_disable_active_migration());
    assert!(c.get_disable_client_ip_validation());
    assert!(c.get_enable_relaxed_loss_threshold());
    assert!(c.get_discover_path_mtu());
    assert!(!c.get_enable_hystart());
    assert!(c.get_enable_pacing());
    assert!(c.get_enable_expensive_packet_count_metrics());
    assert!(c.get_capture_quiche_logs());
    assert!(c.get_verify_peer());
    assert!(c.get_enable_send_streams_blocked());
    assert!(!c.get_grease());
    assert!(c.get_disable_dcid_reuse());
}

#[test]
fn numbers_are_kept() {
    let mut c = config();
    c.set_dgram_recv_max_queue_len(1);
    c.set_dgram_send_max_queue_len(2);
    c.set_initial_max_data(3);
    c.set_initial_max_stream_data_bidi_local(4);
    c.set_initial_max_stream_data_bidi_remote(5);
    c.set_initial_max_stream_data_uni(6);
    c.set_initial_max_streams_bidi(7);
    c.set_initial_max_streams_uni(8);
    c.set_active_connection_id_limit(9);
    c.set_max_recv_udp_payload_size(10);
    c.set_max_send_udp_payload_size(11);
    c.set_initial_congestion_window_packets(12);
    c.set_pmtud_max_probes(13);
    c.set_max_pacing_rate(Some(14));
    c.set_listen_backlog(15);
    c.set_max_connection_window(16);
    c.set_max_stream_window(17);
    c.set_max_amplification_factor(18);
    c.set_send_capacity_factor(1.25f64.to_bits());
    c.set_ack_delay_exponent(19);
    c.set_max_ack_delay(20);
    c.set_max_path_challenge_recv_queue_len(21);
    c.set_track_unknown_transport_parameters(Some(22));
    assert_eq!(c.get_dgram_recv_max_queue_len(), 1);
    assert_eq!(c.get_dgram_send_max_queue_len(), 2);
    assert_eq!(c.get_initial_max_data(), 3);
    assert_eq!(c.get_initial_max_stream_data_bidi_local(), 4);
    assert_eq!(c.get_initial_max_stream_data_bidi_remote(), 5);
    assert_eq!(c.get_initial_max_stream_data_uni(), 6);
    assert_eq!(c.get_initial_max_streams_bidi(), 7);
    assert_eq!(c.get_initial_max_streams_uni(), 8);
    assert_eq!(c.get_active_connection_id_limit(), 9);
    assert_eq!(c.get_max_recv_udp_payload_size(), 10);
    assert_eq!(c.get_max_send_udp_payload_size(), 11);
    assert_eq!(c.get_initial_congestion_window_packets(), 12);
    assert_eq!(c.get_pmtud_max_probes(), 13);
    assert_eq!(c.get_max_pacing_rate(), Some(14));
    assert_eq!(c.get_listen_backlog(), 15);
    assert_eq!(c.get_max_connection_window(), 16);
    assert_eq!(c.get_max_stream_window(), 17);
    assert_eq!(c.get_max_amplification_factor(), 18);
    assert_eq!(f64::from_bits(c.get_send_capacity_factor()), 1.25);
    assert_eq!(c.get_ack_delay_exponent(), 19);
    assert_eq!(c.get_max_ack_delay(), 20);
    assert_eq!(c.get_max_path_challenge_recv_queue_len(), 21);
    assert_eq!(c.get_track_unknown_transport_parameters(), Some(22));
}

#[test]
fn texts_are_kept() {
    let mut c = config();
    c.set_keylog_file(Some("keys".to_string()));
    c.set_qlog_dir(Some("logs".to_string()));
    c.set_cc_algorithm("bbr".to_string());
    c.set_cert_path("a".to_string());
    c.set_key_path("b".to_string());
    assert_eq!(c.get_keylog_file(), Some("keys".to_string()));
    assert_eq!(c.get_qlog_dir(), Some("logs".to_string()));
    assert_eq!(c.get_cc_algorithm(), "bbr");
    assert_eq!(c.get_cert_path(), "a");
    assert_eq!(c.get_key_path(), "b");
    c.set_keylog_file(None);
    c.set_qlog_dir(None);
    assert_eq!(c.get_keylog_file(), None);
    assert_eq!(c.get_qlog_dir(), None);
}

#[test]
fn the_setting_decides_how_many_threads_run() {
    assert_eq!(MIN_WORKER_THREADS, 2);
    assert_eq!(worker_thread_count(Some("6"), Some(3)), 6);
    assert_eq!(worker_thread_count(Some("+1"), Some(3)), 1);
    assert_eq!(worker_thread_count(Some("0"), Some(3)), 3);
    assert_eq!(worker_thread_count(Some(""), Some(3)), 3);
    assert_eq!(worker_thread_count(Some("-2"), Some(3)), 3);
    assert_eq!(worker_thread_count(Some("four"), Some(1)), 2);
    assert_eq!(worker_thread_count(Some("99999999999999999999999"), None), 2);
    assert_eq!(worker_thread_count(None, Some(1)), 2);
    assert_eq!(worker_thread_count(None, Some(16)), 16);
    assert_eq!(worker_thread_count(None, None), 2);
}

#[test]
fn errors_are_put_in_words() {
    let all = [
        (
            QuicheError::RuntimeInit("no threads".to_string()),
            "failed to initialize tokio runtime: no threads",
        ),
        (
            QuicheError::Status { code: -14, message: "unavailable".to_string() },
            "gRPC status -14: unavailable",
        ),
        (
            QuicheError::Status { code: i32::MIN, message: "".to_string() },
            "gRPC status -2147483648: ",
        ),
        (QuicheError::InvalidArg("x".to_string()), "invalid argument: x"),
        (QuicheError::InvalidUri("y".to_string()), "invalid URI: y"),
        (QuicheError::CallbackFailed("z".to_string()), "callback failed: z"),
    ];
    for (error, text) in all {
        assert_eq!(error.to_text(), text);
        let e = error.to_exception();
        assert_eq!(e.class, PhpClass::Exception);
        assert_eq!(e.message, text);
    }
}

#[test]
fn numbers_are_written_as_std_writes_them() {
    for n in [0u128, 1, 9, 10, 15, 16, 255, 65535, u64::MAX as u128, u128::MAX] {
        let mut decimal = String::new();
        append_number(&mut decimal, n, 10);
        assert_eq!(decimal, format!("{}", n));
        let mut hex = String::from("#");
        append_number(&mut hex, n, 16);
        assert_eq!(hex, format!("#{:x}", n));
        assert_eq!(parse_number(&decimal, 10, u128::MAX), Some(n));
        assert_eq!(parse_number(&hex[1..], 16, u128::MAX), Some(n));
    }
    for n in [0i64, -1, 42, i64::MIN, i64::MAX] {
        let mut text = String::new();
        append_integer(&mut text, n);
        assert_eq!(text, format!("{}", n));
    }
}

#[test]
fn numbers_are_read_as_std_reads_them() {
    for text in ["", "+", "-", "+5", "005", "12a", "1f", "F", "++1", "\u{663}", "4294967296", "9 "] {
        let decimal = text.parse::<u32>().ok().map(|n| n as u128);
        assert_eq!(parse_number(text, 10, u32::MAX as u128), decimal);
        let hex = u32::from_str_radix(text, 16).ok().map(|n| n as u128);
        assert_eq!(parse_number(text, 16, u32::MAX as u128), hex);
    }
}

#[test]
fn a_setting_of_threads_is_a_positive_integer() {
    assert_eq!(parse_setting("12"), Some(12));
    assert_eq!(parse_setting("+3"), Some(3));
    for bad in ["0", "", "-1", "two", "1.5", " 4", "99999999999999999999999"] {
        assert_eq!(parse_setting(bad), None);
    }
}
