//! The settings of a server.

use crate::text::{
    append_number, lemma_digits_of_number, number_text, numeral_value, parse_number,
};
use vstd::prelude::*;
use vstd::string::*;
use vstd::utf8::{
    decode_utf8, decode_utf8_encode_utf8, encode_utf8, encode_utf8_decode_utf8,
    encode_utf8_valid_utf8, valid_utf8,
};

verus! {

/// A span of time: whole seconds, and nanoseconds on top.
#[derive(Clone, Copy, PartialEq, Eq, Structural, Debug)]
pub struct Timeout {
    pub secs: u64,
    pub nanos: u32,
}

impl Timeout {
    /// The whole milliseconds of the span.
    pub open spec fn millis(self) -> nat {
        (self.secs * 1000 + self.nanos / 1000000) as nat
    }

    /// The span of that many milliseconds.
    pub fn from_millis(millis: u64) -> (r: Timeout)
        ensures
            r == (Timeout {
                secs: (millis / 1000) as u64,
                nanos: (millis % 1000 * 1000000) as u32,
            }),
            r.millis() == millis,
    {
        Timeout { secs: millis / 1000, nanos: (millis % 1000) as u32 * 1000000 }
    }

    /// The whole milliseconds of the span; of a count past 64 bits, the lower 64.
    pub fn as_millis(self) -> (r: u64)
        ensures
            r == self.millis() % 0x1_0000_0000_0000_0000,
    {
        let millis: u128 = self.secs as u128 * 1000 + (self.nanos / 1000000) as u128;
        assert(millis as u64 == millis % 0x1_0000_0000_0000_0000) by (bit_vector);
        #[verifier::truncate]
        let low: u64 = millis as u64;
        low
    }
}

/// The settings of the transport.
#[derive(Debug)]
pub struct QuicSettings {
    /// The application protocols on offer, the preferred first.
    pub alpn: Vec<Vec<u8>>,
    /// Whether datagrams may be sent and received.
    pub enable_dgram: bool,
    /// How many received datagrams may wait.
    pub dgram_recv_max_queue_len: usize,
    /// How many datagrams may wait to be sent.
    pub dgram_send_max_queue_len: usize,
    /// Whether data may come before the handshake is done.
    pub enable_early_data: bool,
    /// How many bytes the peer may send on the connection at first.
    pub initial_max_data: u64,
    /// How many bytes the peer may send at first on a bidirectional stream opened here.
    pub initial_max_stream_data_bidi_local: u64,
    /// How many bytes the peer may send at first on a bidirectional stream of its own.
    pub initial_max_stream_data_bidi_remote: u64,
    /// How many bytes the peer may send at first on a unidirectional stream.
    pub initial_max_stream_data_uni: u64,
    /// How many bidirectional streams the peer may open at first.
    pub initial_max_streams_bidi: u64,
    /// How many unidirectional streams the peer may open at first.
    pub initial_max_streams_uni: u64,
    /// How long a connection may stay idle; for ever, if there is none.
    pub max_idle_timeout: Option<Timeout>,
    /// Whether the peer is told not to change its address.
    pub disable_active_migration: bool,
    /// How many connection identifiers are kept for a peer.
    pub active_connection_id_limit: u64,
    /// The largest payload of a received packet.
    pub max_recv_udp_payload_size: usize,
    /// The largest payload of a sent packet.
    pub max_send_udp_payload_size: usize,
    /// Whether a client's address is taken without a retry.
    pub disable_client_ip_validation: bool,
    /// Where the session keys are logged, if they are.
    pub keylog_file: Option<String>,
    /// Where the event logs go, if there are any.
    pub qlog_dir: Option<String>,
    /// The name of the congestion control algorithm.
    pub cc_algorithm: String,
    /// The congestion window at first, in packets.
    pub initial_congestion_window_packets: usize,
    /// Whether the loss threshold adapts to spurious losses.
    pub enable_relaxed_loss_threshold: bool,
    /// Whether the largest packet of the path is probed for.
    pub discover_path_mtu: bool,
    /// How often a packet size is probed before it counts as too large.
    pub pmtud_max_probes: u8,
    /// Whether slow start is left early.
    pub enable_hystart: bool,
    /// Whether packets are paced.
    pub enable_pacing: bool,
    /// The pace in bytes per second that is not exceeded, if there is one.
    pub max_pacing_rate: Option<u64>,
    /// Whether costly metrics of packets are kept.
    pub enable_expensive_packet_count_metrics: bool,
    /// Whether the transport's own log is captured.
    pub capture_quiche_logs: bool,
    /// How long the handshake may take; for ever, if there is none.
    pub handshake_timeout: Option<Timeout>,
    /// How many connections may wait to be accepted.
    pub listen_backlog: usize,
    /// Whether the peer's certificate is verified.
    pub verify_peer: bool,
    /// The largest flow control window of a connection, in bytes.
    pub max_connection_window: u64,
    /// The largest flow control window of a stream, in bytes.
    pub max_stream_window: u64,
    /// Whether the peer is told that streams wait for its leave.
    pub enable_send_streams_blocked: bool,
    /// Whether reserved values are sent, to keep peers open to them.
    pub grease: bool,
    /// How many bytes may be sent for each byte of an unverified peer.
    pub max_amplification_factor: usize,
    /// How far the sending capacity may exceed the congestion window: the bits of an IEEE
    /// 754 double.
    pub send_capacity_factor: u64,
    /// The exponent by which acknowledgement delays are scaled.
    pub ack_delay_exponent: u64,
    /// How long an acknowledgement may be held back, in milliseconds.
    pub max_ack_delay: u64,
    /// How many path challenges of the peer may wait.
    pub max_path_challenge_recv_queue_len: usize,
    /// The token of stateless resets, if there is one.
    pub stateless_reset_token: Option<u128>,
    /// Whether a connection identifier is used on one path only.
    pub disable_dcid_reuse: bool,
    /// How many bytes of unknown transport parameters are kept, if any.
    pub track_unknown_transport_parameters: Option<usize>,
}

/// The settings of a server: those of the transport, and where its certificate and key are.
#[derive(Debug)]
pub struct Config {
    pub inner: QuicSettings,
    pub cert_path: String,
    pub key_path: String,
}

/// The text that bytes are shown as. Bytes that are no text in UTF-8 have replacement characters
/// in it.
pub uninterp spec fn lossy_text(bytes: Seq<u8>) -> Seq<char>;

/// `String::from_utf8_lossy`: the text that the bytes are shown as. Bytes in UTF-8 are shown as
/// the text that they encode.
#[verifier::external_body]
fn show_lossy(bytes: &Vec<u8>) -> (r: String)
    ensures
        r@ == lossy_text(bytes@),
        valid_utf8(bytes@) ==> r@ == decode_utf8(bytes@),
{
    String::from_utf8_lossy(bytes).into_owned()
}

/// The protocols are the texts in UTF-8.
pub open spec fn encodes_all(alpn: Seq<Vec<u8>>, texts: Seq<String>) -> bool {
    &&& alpn.len() == texts.len()
    &&& forall|i: int| 0 <= i < alpn.len() ==> (#[trigger] alpn[i])@ == encode_utf8(texts[i]@)
}

/// The texts are those that the protocols are shown as.
pub open spec fn shows_all(alpn: Seq<Vec<u8>>, texts: Seq<String>) -> bool {
    &&& texts.len() == alpn.len()
    &&& forall|i: int|
        0 <= i < texts.len() ==> (#[trigger] texts[i])@ == lossy_text(alpn[i]@) && (valid_utf8(
            alpn[i]@,
        ) ==> texts[i]@ == decode_utf8(alpn[i]@))
}

/// The milliseconds that a timeout is shown as.
pub open spec fn shown_timeout(timeout: Option<Timeout>, r: Option<u64>) -> bool {
    match timeout {
        Some(t) => r matches Some(ms) && ms == t.millis() % 0x1_0000_0000_0000_0000,
        None => r is None,
    }
}

/// The timeout of that many milliseconds.
pub open spec fn timeout_of(millis: Option<u64>) -> Option<Timeout> {
    match millis {
        Some(ms) => Some(
            Timeout { secs: (ms / 1000) as u64, nanos: (ms % 1000 * 1000000) as u32 },
        ),
        None => None,
    }
}

/// The token that a text sets: the hexadecimal number that it holds. A text that holds none
/// leaves the token as it is, and no text clears it.
pub open spec fn token_after(old_token: Option<u128>, text: Option<String>) -> Option<u128> {
    match text {
        Some(t) => match numeral_value(t@, 16, u128::MAX as nat) {
            Some(n) => Some(n as u128),
            None => old_token,
        },
        None => None,
    }
}

fn show_timeout(timeout: Option<Timeout>) -> (r: Option<u64>)
    ensures
        shown_timeout(timeout, r),
{
    match timeout {
        Some(t) => Some(t.as_millis()),
        None => None,
    }
}

fn make_timeout(millis: Option<u64>) -> (r: Option<Timeout>)
    ensures
        r == timeout_of(millis),
{
    match millis {
        Some(ms) => Some(Timeout::from_millis(ms)),
        None => None,
    }
}

impl Config {
    /// The settings `defaults`, with a certificate and a key.
    pub fn __construct(cert_path: String, key_path: String, defaults: QuicSettings) -> (r: Self)
        ensures
            r == (Config { inner: defaults, cert_path, key_path }),
    {
        Config { inner: defaults, cert_path, key_path }
    }

    /// The application protocols, as texts.
    pub fn get_alpn(&self) -> (r: Vec<String>)
        ensures
            shows_all(self.inner.alpn@, r@),
    {
        let mut texts: Vec<String> = Vec::new();
        let mut i: usize = 0;
        while i < self.inner.alpn.len()
            invariant
                i <= self.inner.alpn@.len(),
                texts@.len() == i,
                forall|k: int|
                    0 <= k < i ==> (#[trigger] texts@[k])@ == lossy_text(self.inner.alpn@[k]@) && (
                    valid_utf8(self.inner.alpn@[k]@) ==> texts@[k]@ == decode_utf8(
                        self.inner.alpn@[k]@,
                    )),
            decreases self.inner.alpn@.len() - i,
        {
            texts.push(show_lossy(&self.inner.alpn[i]));
            i = i + 1;
        }
        texts
    }

    /// Offers the texts, in UTF-8, as the application protocols.
    pub fn set_alpn(&mut self, alpn: Vec<String>)
        ensures
            *final(self) == (Config {
                inner: QuicSettings { alpn: final(self).inner.alpn, ..old(self).inner },
                ..*old(self)
            }),
            encodes_all(final(self).inner.alpn@, alpn@),
    {
        let mut bytes: Vec<Vec<u8>> = Vec::new();
        let mut i: usize = 0;
        while i < alpn.len()
            invariant
                i <= alpn@.len(),
                bytes@.len() == i,
                forall|k: int|
                    0 <= k < i ==> (#[trigger] bytes@[k])@ == encode_utf8(alpn@[k]@),
            decreases alpn@.len() - i,
        {
            bytes.push(alpn[i].as_str().as_bytes_vec());
            i = i + 1;
        }
        self.inner.alpn = bytes;
    }

    pub fn get_enable_dgram(&self) -> (r: bool)
        ensures
            r == self.inner.enable_dgram,
    {
        self.inner.enable_dgram
    }

    pub fn set_enable_dgram(&mut self, enable_dgram: bool)
        ensures
            *final(self) == (Config {
                inner: QuicSettings { enable_dgram: enable_dgram, ..old(self).inner },
                ..*old(self)
            }),
    {
        self.inner.enable_dgram = enable_dgram;
    }

    pub fn get_dgram_recv_max_queue_len(&self) -> (r: usize)
        ensures
            r == self.inner.dgram_recv_max_queue_len,
    {
        self.inner.dgram_recv_max_queue_len
    }

    pub fn set_dgram_recv_max_queue_len(&mut self, len: usize)
        ensures
            *final(self) == (Config {
                inner: QuicSettings { dgram_recv_max_queue_len: len, ..old(self).inner },
                ..*old(self)
            }),
    {
        self.inner.dgram_recv_max_queue_len = len;
    }

    pub fn get_dgram_send_max_queue_len(&self) -> (r: usize)
        ensures
            r == self.inner.dgram_send_max_queue_len,
    {
        self.inner.dgram_send_max_queue_len
    }

    pub fn set_dgram_send_max_queue_len(&mut self, len: usize)
        ensures
            *final(self) == (Config {
                inner: QuicSettings { dgram_send_max_queue_len: len, ..old(self).inner },
                ..*old(self)
            }),
    {
        self.inner.dgram_send_max_queue_len = len;
    }

    pub fn get_enable_early_data(&self) -> (r: bool)
        ensures
            r == self.inner.enable_early_data,
    {
        self.inner.enable_early_data
    }

    pub fn set_enable_early_data(&mut self, enable: bool)
        ensures
            *final(self) == (Config {
                inner: QuicSettings { enable_early_data: enable, ..old(self).inner },
                ..*old(self)
            }),
    {
        self.inner.enable_early_data = enable;
    }

    pub fn get_initial_max_data(&self) -> (r: u64)
        ensures
            r == self.inner.initial_max_data,
    {
        self.inner.initial_max_data
    }

    pub fn set_initial_max_data(&mut self, data: u64)
        ensures
            *final(self) == (Config {
                inner: QuicSettings { initial_max_data: data, ..old(self).inner },
                ..*old(self)
            }),
    {
        self.inner.initial_max_data = data;
    }

    pub fn get_initial_max_stream_data_bidi_local(&self) -> (r: u64)
        ensures
            r == self.inner.initial_max_stream_data_bidi_local,
    {
        self.inner.initial_max_stream_data_bidi_local
    }

    pub fn set_initial_max_stream_data_bidi_local(&mut self, data: u64)
        ensures
            *final(self) == (Config {
                inner: QuicSettings { initial_max_stream_data_bidi_local: data, ..old(self).inner },
                ..*old(self)
            }),
    {
        self.inner.initial_max_stream_data_bidi_local = data;
    }

    pub fn get_initial_max_stream_data_bidi_remote(&self) -> (r: u64)
        ensures
            r == self.inner.initial_max_stream_data_bidi_remote,
    {
        self.inner.initial_max_stream_data_bidi_remote
    }

    pub fn set_initial_max_stream_data_bidi_remote(&mut self, data: u64)
        ensures
            *final(self) == (Config {
                inner: QuicSettings { initial_max_stream_data_bidi_remote: data, ..old(self).inner },
                ..*old(self)
            }),
    {
        self.inner.initial_max_stream_data_bidi_remote = data;
    }

    pub fn get_initial_max_stream_data_uni(&self) -> (r: u64)
        ensures
            r == self.inner.initial_max_stream_data_uni,
    {
        self.inner.initial_max_stream_data_uni
    }

    pub fn set_initial_max_stream_data_uni(&mut self, data: u64)
        ensures
            *final(self) == (Config {
                inner: QuicSettings { initial_max_stream_data_uni: data, ..old(self).inner },
                ..*old(self)
            }),
    {
        self.inner.initial_max_stream_data_uni = data;
    }

    pub fn get_initial_max_streams_bidi(&self) -> (r: u64)
        ensures
            r == self.inner.initial_max_streams_bidi,
    {
        self.inner.initial_max_streams_bidi
    }

    pub fn set_initial_max_streams_bidi(&mut self, streams: u64)
        ensures
            *final(self) == (Config {
                inner: QuicSettings { initial_max_streams_bidi: streams, ..old(self).inner },
                ..*old(self)
            }),
    {
        self.inner.initial_max_streams_bidi = streams;
    }

    pub fn get_initial_max_streams_uni(&self) -> (r: u64)
        ensures
            r == self.inner.initial_max_streams_uni,
    {
        self.inner.initial_max_streams_uni
    }

    pub fn set_initial_max_streams_uni(&mut self, streams: u64)
        ensures
            *final(self) == (Config {
                inner: QuicSettings { initial_max_streams_uni: streams, ..old(self).inner },
                ..*old(self)
            }),
    {
        self.inner.initial_max_streams_uni = streams;
    }

    /// The timeout in milliseconds.
    pub fn get_max_idle_timeout(&self) -> (r: Option<u64>)
        ensures
            shown_timeout(self.inner.max_idle_timeout, r),
    {
        show_timeout(self.inner.max_idle_timeout)
    }

    pub fn set_max_idle_timeout(&mut self, timeout: Option<u64>)
        ensures
            *final(self) == (Config {
                inner: QuicSettings { max_idle_timeout: timeout_of(timeout), ..old(self).inner },
                ..*old(self)
            }),
    {
        self.inner.max_idle_timeout = make_timeout(timeout);
    }

    pub fn get_disable_active_migration(&self) -> (r: bool)
        ensures
            r == self.inner.disable_active_migration,
    {
        self.inner.disable_active_migration
    }

    pub fn set_disable_active_migration(&mut self, disable: bool)
        ensures
            *final(self) == (Config {
                inner: QuicSettings { disable_active_migration: disable, ..old(self).inner },
                ..*old(self)
            }),
    {
        self.inner.disable_active_migration = disable;
    }

    pub fn get_active_connection_id_limit(&self) -> (r: u64)
        ensures
            r == self.inner.active_connection_id_limit,
    {
        self.inner.active_connection_id_limit
    }

    pub fn set_active_connection_id_limit(&mut self, limit: u64)
        ensures
            *final(self) == (Config {
                inner: QuicSettings { active_connection_id_limit: limit, ..old(self).inner },
                ..*old(self)
            }),
    {
        self.inner.active_connection_id_limit = limit;
    }

    pub fn get_max_recv_udp_payload_size(&self) -> (r: usize)
        ensures
            r == self.inner.max_recv_udp_payload_size,
    {
        self.inner.max_recv_udp_payload_size
    }

    pub fn set_max_recv_udp_payload_size(&mut self, size: usize)
        ensures
            *final(self) == (Config {
                inner: QuicSettings { max_recv_udp_payload_size: size, ..old(self).inner },
                ..*old(self)
            }),
    {
        self.inner.max_recv_udp_payload_size = size;
    }

    pub fn get_max_send_udp_payload_size(&self) -> (r: usize)
        ensures
            r == self.inner.max_send_udp_payload_size,
    {
        self.inner.max_send_udp_payload_size
    }

    pub fn set_max_send_udp_payload_size(&mut self, size: usize)
        ensures
            *final(self) == (Config {
                inner: QuicSettings { max_send_udp_payload_size: size, ..old(self).inner },
                ..*old(self)
            }),
    {
        self.inner.max_send_udp_payload_size = size;
    }

    pub fn get_disable_client_ip_validation(&self) -> (r: bool)
        ensures
            r == self.inner.disable_client_ip_validation,
    {
        self.inner.disable_client_ip_validation
    }

    pub fn set_disable_client_ip_validation(&mut self, disable: bool)
        ensures
            *final(self) == (Config {
                inner: QuicSettings { disable_client_ip_validation: disable, ..old(self).inner },
                ..*old(self)
            }),
    {
        self.inner.disable_client_ip_validation = disable;
    }

    pub fn get_keylog_file(&self) -> (r: Option<String>)
        ensures
            r == self.inner.keylog_file,
    {
        self.inner.keylog_file.clone()
    }

    pub fn set_keylog_file(&mut self, file: Option<String>)
        ensures
            *final(self) == (Config {
                inner: QuicSettings { keylog_file: file, ..old(self).inner },
                ..*old(self)
            }),
    {
        self.inner.keylog_file = file;
    }

    pub fn get_qlog_dir(&self) -> (r: Option<String>)
        ensures
            r == self.inner.qlog_dir,
    {
        self.inner.qlog_dir.clone()
    }

    pub fn set_qlog_dir(&mut self, dir: Option<String>)
        ensures
            *final(self) == (Config {
                inner: QuicSettings { qlog_dir: dir, ..old(self).inner },
                ..*old(self)
            }),
    {
        self.inner.qlog_dir = dir;
    }

    pub fn get_cc_algorithm(&self) -> (r: String)
        ensures
            r == self.inner.cc_algorithm,
    {
        self.inner.cc_algorithm.clone()
    }

    pub fn set_cc_algorithm(&mut self, algo: String)
        ensures
            *final(self) == (Config {
                inner: QuicSettings { cc_algorithm: algo, ..old(self).inner },
                ..*old(self)
            }),
    {
        self.inner.cc_algorithm = algo;
    }

    pub fn get_initial_congestion_window_packets(&self) -> (r: usize)
        ensures
            r == self.inner.initial_congestion_window_packets,
    {
        self.inner.initial_congestion_window_packets
    }

    pub fn set_initial_congestion_window_packets(&mut self, packets: usize)
        ensures
            *final(self) == (Config {
                inner: QuicSettings { initial_congestion_window_packets: packets, ..old(self).inner },
                ..*old(self)
            }),
    {
        self.inner.initial_congestion_window_packets = packets;
    }

    pub fn get_enable_relaxed_loss_threshold(&self) -> (r: bool)
        ensures
            r == self.inner.enable_relaxed_loss_threshold,
    {
        self.inner.enable_relaxed_loss_threshold
    }

    pub fn set_enable_relaxed_loss_threshold(&mut self, enable: bool)
        ensures
            *final(self) == (Config {
                inner: QuicSettings { enable_relaxed_loss_threshold: enable, ..old(self).inner },
                ..*old(self)
            }),
    {
        self.inner.enable_relaxed_loss_threshold = enable;
    }

    pub fn get_discover_path_mtu(&self) -> (r: bool)
        ensures
            r == self.inner.discover_path_mtu,
    {
        self.inner.discover_path_mtu
    }

    pub fn set_discover_path_mtu(&mut self, enable: bool)
        ensures
            *final(self) == (Config {
                inner: QuicSettings { discover_path_mtu: enable, ..old(self).inner },
                ..*old(self)
            }),
    {
        self.inner.discover_path_mtu = enable;
    }

    pub fn get_pmtud_max_probes(&self) -> (r: u8)
        ensures
            r == self.inner.pmtud_max_probes,
    {
        self.inner.pmtud_max_probes
    }

    pub fn set_pmtud_max_probes(&mut self, probes: u8)
        ensures
            *final(self) == (Config {
                inner: QuicSettings { pmtud_max_probes: probes, ..old(self).inner },
                ..*old(self)
            }),
    {
        self.inner.pmtud_max_probes = probes;
    }

    pub fn get_enable_hystart(&self) -> (r: bool)
        ensures
            r == self.inner.enable_hystart,
    {
        self.inner.enable_hystart
    }

    pub fn set_enable_hystart(&mut self, enable: bool)
        ensures
            *final(self) == (Config {
                inner: QuicSettings { enable_hystart: enable, ..old(self).inner },
                ..*old(self)
            }),
    {
        self.inner.enable_hystart = enable;
    }

    pub fn get_enable_pacing(&self) -> (r: bool)
        ensures
            r == self.inner.enable_pacing,
    {
        self.inner.enable_pacing
    }

    pub fn set_enable_pacing(&mut self, enable: bool)
        ensures
            *final(self) == (Config {
                inner: QuicSettings { enable_pacing: enable, ..old(self).inner },
                ..*old(self)
            }),
    {
        self.inner.enable_pacing = enable;
    }

    pub fn get_max_pacing_rate(&self) -> (r: Option<u64>)
        ensures
            r == self.inner.max_pacing_rate,
    {
        self.inner.max_pacing_rate
    }

    pub fn set_max_pacing_rate(&mut self, rate: Option<u64>)
        ensures
            *final(self) == (Config {
                inner: QuicSettings { max_pacing_rate: rate, ..old(self).inner },
                ..*old(self)
            }),
    {
        self.inner.max_pacing_rate = rate;
    }

    pub fn get_enable_expensive_packet_count_metrics(&self) -> (r: bool)
        ensures
            r == self.inner.enable_expensive_packet_count_metrics,
    {
        self.inner.enable_expensive_packet_count_metrics
    }

    pub fn set_enable_expensive_packet_count_metrics(&mut self, enable: bool)
        ensures
            *final(self) == (Config {
                inner: QuicSettings { enable_expensive_packet_count_metrics: enable, ..old(self).inner },
                ..*old(self)
            }),
    {
        self.inner.enable_expensive_packet_count_metrics = enable;
    }

    pub fn get_capture_quiche_logs(&self) -> (r: bool)
        ensures
            r == self.inner.capture_quiche_logs,
    {
        self.inner.capture_quiche_logs
    }

    pub fn set_capture_quiche_logs(&mut self, capture: bool)
        ensures
            *final(self) == (Config {
                inner: QuicSettings { capture_quiche_logs: capture, ..old(self).inner },
                ..*old(self)
            }),
    {
        self.inner.capture_quiche_logs = capture;
    }

    /// The timeout in milliseconds.
    pub fn get_handshake_timeout(&self) -> (r: Option<u64>)
        ensures
            shown_timeout(self.inner.handshake_timeout, r),
    {
        show_timeout(self.inner.handshake_timeout)
    }

    pub fn set_handshake_timeout(&mut self, timeout: Option<u64>)
        ensures
            *final(self) == (Config {
                inner: QuicSettings { handshake_timeout: timeout_of(timeout), ..old(self).inner },
                ..*old(self)
            }),
    {
        self.inner.handshake_timeout = make_timeout(timeout);
    }

    pub fn get_listen_backlog(&self) -> (r: usize)
        ensures
            r == self.inner.listen_backlog,
    {
        self.inner.listen_backlog
    }

    pub fn set_listen_backlog(&mut self, backlog: usize)
        ensures
            *final(self) == (Config {
                inner: QuicSettings { listen_backlog: backlog, ..old(self).inner },
                ..*old(self)
            }),
    {
        self.inner.listen_backlog = backlog;
    }

    pub fn get_verify_peer(&self) -> (r: bool)
        ensures
            r == self.inner.verify_peer,
    {
        self.inner.verify_peer
    }

    pub fn set_verify_peer(&mut self, verify: bool)
        ensures
            *final(self) == (Config {
                inner: QuicSettings { verify_peer: verify, ..old(self).inner },
                ..*old(self)
            }),
    {
        self.inner.verify_peer = verify;
    }

    pub fn get_max_connection_window(&self) -> (r: u64)
        ensures
            r == self.inner.max_connection_window,
    {
        self.inner.max_connection_window
    }

    pub fn set_max_connection_window(&mut self, window: u64)
        ensures
            *final(self) == (Config {
                inner: QuicSettings { max_connection_window: window, ..old(self).inner },
                ..*old(self)
            }),
    {
        self.inner.max_connection_window = window;
    }

    pub fn get_max_stream_window(&self) -> (r: u64)
        ensures
            r == self.inner.max_stream_window,
    {
        self.inner.max_stream_window
    }

    pub fn set_max_stream_window(&mut self, window: u64)
        ensures
            *final(self) == (Config {
                inner: QuicSettings { max_stream_window: window, ..old(self).inner },
                ..*old(self)
            }),
    {
        self.inner.max_stream_window = window;
    }

    pub fn get_enable_send_streams_blocked(&self) -> (r: bool)
        ensures
            r == self.inner.enable_send_streams_blocked,
    {
        self.inner.enable_send_streams_blocked
    }

    pub fn set_enable_send_streams_blocked(&mut self, enable: bool)
        ensures
            *final(self) == (Config {
                inner: QuicSettings { enable_send_streams_blocked: enable, ..old(self).inner },
                ..*old(self)
            }),
    {
        self.inner.enable_send_streams_blocked = enable;
    }

    pub fn get_grease(&self) -> (r: bool)
        ensures
            r == self.inner.grease,
    {
        self.inner.grease
    }

    pub fn set_grease(&mut self, grease: bool)
        ensures
            *final(self) == (Config {
                inner: QuicSettings { grease: grease, ..old(self).inner },
                ..*old(self)
            }),
    {
        self.inner.grease = grease;
    }

    pub fn get_max_amplification_factor(&self) -> (r: usize)
        ensures
            r == self.inner.max_amplification_factor,
    {
        self.inner.max_amplification_factor
    }

    pub fn set_max_amplification_factor(&mut self, factor: usize)
        ensures
            *final(self) == (Config {
                inner: QuicSettings { max_amplification_factor: factor, ..old(self).inner },
                ..*old(self)
            }),
    {
        self.inner.max_amplification_factor = factor;
    }

    pub fn get_send_capacity_factor(&self) -> (r: u64)
        ensures
            r == self.inner.send_capacity_factor,
    {
        self.inner.send_capacity_factor
    }

    pub fn set_send_capacity_factor(&mut self, factor: u64)
        ensures
            *final(self) == (Config {
                inner: QuicSettings { send_capacity_factor: factor, ..old(self).inner },
                ..*old(self)
            }),
    {
        self.inner.send_capacity_factor = factor;
    }

    pub fn get_ack_delay_exponent(&self) -> (r: u64)
        ensures
            r == self.inner.ack_delay_exponent,
    {
        self.inner.ack_delay_exponent
    }

    pub fn set_ack_delay_exponent(&mut self, exponent: u64)
        ensures
            *final(self) == (Config {
                inner: QuicSettings { ack_delay_exponent: exponent, ..old(self).inner },
                ..*old(self)
            }),
    {
        self.inner.ack_delay_exponent = exponent;
    }

    pub fn get_max_ack_delay(&self) -> (r: u64)
        ensures
            r == self.inner.max_ack_delay,
    {
        self.inner.max_ack_delay
    }

    pub fn set_max_ack_delay(&mut self, delay: u64)
        ensures
            *final(self) == (Config {
                inner: QuicSettings { max_ack_delay: delay, ..old(self).inner },
                ..*old(self)
            }),
    {
        self.inner.max_ack_delay = delay;
    }

    pub fn get_max_path_challenge_recv_queue_len(&self) -> (r: usize)
        ensures
            r == self.inner.max_path_challenge_recv_queue_len,
    {
        self.inner.max_path_challenge_recv_queue_len
    }

    pub fn set_max_path_challenge_recv_queue_len(&mut self, len: usize)
        ensures
            *final(self) == (Config {
                inner: QuicSettings { max_path_challenge_recv_queue_len: len, ..old(self).inner },
                ..*old(self)
            }),
    {
        self.inner.max_path_challenge_recv_queue_len = len;
    }

    /// The token in hexadecimal.
    pub fn get_stateless_reset_token(&self) -> (r: Option<String>)
        ensures
            match self.inner.stateless_reset_token {
                Some(t) => r matches Some(text) && text@ == number_text(t as nat, 16),
                None => r is None,
            },
    {
        match self.inner.stateless_reset_token {
            Some(t) => {
                let mut out: String = String::new();
                append_number(&mut out, t, 16);
                assert(out@ =~= number_text(t as nat, 16));
                Some(out)
            },
            None => None,
        }
    }

    /// Sets the token to a number in hexadecimal, if the text holds one, or clears it.
    pub fn set_stateless_reset_token(&mut self, token: Option<String>)
        ensures
            *final(self) == (Config {
                inner: QuicSettings {
                    stateless_reset_token: token_after(old(self).inner.stateless_reset_token, token),
                    ..old(self).inner
                },
                ..*old(self)
            }),
    {
        match token {
            Some(text) => {
                if let Some(t) = parse_number(text.as_str(), 16, u128::MAX) {
                    self.inner.stateless_reset_token = Some(t);
                }
            },
            None => {
                self.inner.stateless_reset_token = None;
            },
        }
    }

    pub fn get_disable_dcid_reuse(&self) -> (r: bool)
        ensures
            r == self.inner.disable_dcid_reuse,
    {
        self.inner.disable_dcid_reuse
    }

    pub fn set_disable_dcid_reuse(&mut self, disable: bool)
        ensures
            *final(self) == (Config {
                inner: QuicSettings { disable_dcid_reuse: disable, ..old(self).inner },
                ..*old(self)
            }),
    {
        self.inner.disable_dcid_reuse = disable;
    }

    pub fn get_track_unknown_transport_parameters(&self) -> (r: Option<usize>)
        ensures
            r == self.inner.track_unknown_transport_parameters,
    {
        self.inner.track_unknown_transport_parameters
    }

    pub fn set_track_unknown_transport_parameters(&mut self, len: Option<usize>)
        ensures
            *final(self) == (Config {
                inner: QuicSettings { track_unknown_transport_parameters: len, ..old(self).inner },
                ..*old(self)
            }),
    {
        self.inner.track_unknown_transport_parameters = len;
    }

    pub fn get_key_path(&self) -> (r: &str)
        ensures
            r@ == self.key_path@,
    {
        self.key_path.as_str()
    }

    pub fn set_key_path(&mut self, key_path: String)
        ensures
            *final(self) == (Config { key_path, ..*old(self) }),
    {
        self.key_path = key_path;
    }

    pub fn get_cert_path(&self) -> (r: &str)
        ensures
            r@ == self.cert_path@,
    {
        self.cert_path.as_str()
    }

    pub fn set_cert_path(&mut self, cert_path: String)
        ensures
            *final(self) == (Config { cert_path, ..*old(self) }),
    {
        self.cert_path = cert_path;
    }
}

/// Application protocols that were set are shown as they were given.
pub proof fn law_alpn_is_kept(alpn: Seq<Vec<u8>>, given: Seq<String>, shown: Seq<String>)
    requires
        encodes_all(alpn, given),
        shows_all(alpn, shown),
    ensures
        shown.len() == given.len(),
        forall|i: int| 0 <= i < given.len() ==> (#[trigger] shown[i])@ == given[i]@,
{
    assert forall|i: int| 0 <= i < given.len() implies (#[trigger] shown[i])@ == given[i]@ by {
        assert(alpn[i]@ == encode_utf8(given[i]@));
        encode_utf8_valid_utf8(given[i]@);
        encode_utf8_decode_utf8(given[i]@);
    }
}

/// A timeout that was set is shown as it was given.
pub proof fn law_timeout_is_kept(given: Option<u64>, shown: Option<u64>)
    requires
        shown_timeout(timeout_of(given), shown),
    ensures
        shown == given,
{
}

/// A token that is set from the text it is shown as stays the same, whatever it was before.
pub proof fn law_token_is_kept(token: u128, before: Option<u128>, text: String)
    requires
        text@ == number_text(token as nat, 16),
    ensures
        token_after(before, Some(text)) == Some(token),
{
    lemma_digits_of_number(token as nat, 16);
}

/// A timeout that is set lasts exactly as many milliseconds as were given, and is whole seconds
/// with less than a second on top; none is none.
pub proof fn law_timeout_is_exact(given: Option<u64>)
    ensures
        timeout_of(given) is Some <==> given is Some,
        given matches Some(ms) ==> {
            let t = timeout_of(given)->0;
            &&& t.nanos < 1_000_000_000
            &&& t.secs * 1_000_000_000 + t.nanos == ms * 1_000_000
        },
{
}

/// A timeout is shown as the milliseconds that have passed by its end, in 64 bits.
pub proof fn law_timeout_is_shown_in_milliseconds(t: Timeout, shown: Option<u64>)
    requires
        shown_timeout(Some(t), shown),
    ensures
        shown is Some,
        shown->0 as int == ((t.secs * 1_000_000_000 + t.nanos) / 1_000_000) % 0x1_0000_0000_0000_0000,
        t.millis() == (t.secs * 1_000_000_000 + t.nanos) / 1_000_000,
{
}

/// No timeout is shown as none.
pub proof fn law_no_timeout_is_shown_as_none(shown: Option<u64>)
    requires
        shown_timeout(None, shown),
    ensures
        shown is None,
{
}

/// Each application protocol is the text that was given in its place, in UTF-8, and shown as the
/// text that its bytes encode where they encode one.
pub proof fn law_alpn_is_utf8(alpn: Seq<Vec<u8>>, given: Seq<String>, shown: Seq<String>, i: int)
    requires
        0 <= i < alpn.len(),
    ensures
        encodes_all(alpn, given) ==> alpn.len() == given.len() && alpn[i]@ == encode_utf8(
            given[i]@,
        ),
        shows_all(alpn, shown) ==> alpn.len() == shown.len() && shown[i]@ == lossy_text(alpn[i]@),
        shows_all(alpn, shown) && valid_utf8(alpn[i]@) ==> encode_utf8(shown[i]@) == alpn[i]@,
{
    if shows_all(alpn, shown) {
        assert(shown[i]@ == lossy_text(alpn[i]@));
        if valid_utf8(alpn[i]@) {
            decode_utf8_encode_utf8(alpn[i]@);
        }
    }
}

/// Only a hexadecimal number that fits sets the token, to that number; any other text leaves it as
/// it was, and no text clears it.
pub proof fn law_only_numbers_set_the_token(before: Option<u128>, text: String)
    ensures
        token_after(before, None) is None,
        match numeral_value(text@, 16, 0xffff_ffff_ffff_ffff_ffff_ffff_ffff_ffff) {
            Some(n) => token_after(before, Some(text)) is Some && token_after(before, Some(text))->0
                as nat == n,
            None => token_after(before, Some(text)) == before,
        },
{
}

} // verus!
