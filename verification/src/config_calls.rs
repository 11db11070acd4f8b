//! Settings read back as they were set.

use crate::config::{
    law_alpn_is_kept, law_timeout_is_exact, law_timeout_is_kept, law_token_is_kept, Config,
    QuicSettings,
};
use crate::text::{number_text, numeral_value};
use vstd::prelude::*;
use vstd::utf8::encode_utf8;

verus! {

/// Setting `enable_dgram` sets it to what was given, whatever that is, and sets nothing else.
pub proof fn law_enable_dgram_reads_back(config: &mut Config, v: bool, shown: bool)
    requires
        call_ensures(Config::set_enable_dgram, (config, v), ()),
        call_ensures(Config::get_enable_dgram, (&*final(config),), shown),
    ensures
        shown == v,
        *final(config) == (Config {
            inner: QuicSettings { enable_dgram: v, ..old(config).inner },
            cert_path: old(config).cert_path,
            key_path: old(config).key_path,
        }),
{
}

/// Setting `dgram_recv_max_queue_len` sets it to what was given, whatever that is, and sets nothing else.
pub proof fn law_dgram_recv_max_queue_len_reads_back(config: &mut Config, v: usize, shown: usize)
    requires
        call_ensures(Config::set_dgram_recv_max_queue_len, (config, v), ()),
        call_ensures(Config::get_dgram_recv_max_queue_len, (&*final(config),), shown),
    ensures
        shown == v,
        *final(config) == (Config {
            inner: QuicSettings { dgram_recv_max_queue_len: v, ..old(config).inner },
            cert_path: old(config).cert_path,
            key_path: old(config).key_path,
        }),
{
}

/// Setting `dgram_send_max_queue_len` sets it to what was given, whatever that is, and sets nothing else.
pub proof fn law_dgram_send_max_queue_len_reads_back(config: &mut Config, v: usize, shown: usize)
    requires
        call_ensures(Config::set_dgram_send_max_queue_len, (config, v), ()),
        call_ensures(Config::get_dgram_send_max_queue_len, (&*final(config),), shown),
    ensures
        shown == v,
        *final(config) == (Config {
            inner: QuicSettings { dgram_send_max_queue_len: v, ..old(config).inner },
            cert_path: old(config).cert_path,
            key_path: old(config).key_path,
        }),
{
}

/// Setting `enable_early_data` sets it to what was given, whatever that is, and sets nothing else.
pub proof fn law_enable_early_data_reads_back(config: &mut Config, v: bool, shown: bool)
    requires
        call_ensures(Config::set_enable_early_data, (config, v), ()),
        call_ensures(Config::get_enable_early_data, (&*final(config),), shown),
    ensures
        shown == v,
        *final(config) == (Config {
            inner: QuicSettings { enable_early_data: v, ..old(config).inner },
            cert_path: old(config).cert_path,
            key_path: old(config).key_path,
        }),
{
}

/// Setting `initial_max_data` sets it to what was given, whatever that is, and sets nothing else.
pub proof fn law_initial_max_data_reads_back(config: &mut Config, v: u64, shown: u64)
    requires
        call_ensures(Config::set_initial_max_data, (config, v), ()),
        call_ensures(Config::get_initial_max_data, (&*final(config),), shown),
    ensures
        shown == v,
        *final(config) == (Config {
            inner: QuicSettings { initial_max_data: v, ..old(config).inner },
            cert_path: old(config).cert_path,
            key_path: old(config).key_path,
        }),
{
}

/// Setting `initial_max_stream_data_bidi_local` sets it to what was given, whatever that is, and sets nothing else.
pub proof fn law_initial_max_stream_data_bidi_local_reads_back(config: &mut Config, v: u64, shown: u64)
    requires
        call_ensures(Config::set_initial_max_stream_data_bidi_local, (config, v), ()),
        call_ensures(Config::get_initial_max_stream_data_bidi_local, (&*final(config),), shown),
    ensures
        shown == v,
        *final(config) == (Config {
            inner: QuicSettings { initial_max_stream_data_bidi_local: v, ..old(config).inner },
            cert_path: old(config).cert_path,
            key_path: old(config).key_path,
        }),
{
}

/// Setting `initial_max_stream_data_bidi_remote` sets it to what was given, whatever that is, and sets nothing else.
pub proof fn law_initial_max_stream_data_bidi_remote_reads_back(config: &mut Config, v: u64, shown: u64)
    requires
        call_ensures(Config::set_initial_max_stream_data_bidi_remote, (config, v), ()),
        call_ensures(Config::get_initial_max_stream_data_bidi_remote, (&*final(config),), shown),
    ensures
        shown == v,
        *final(config) == (Config {
            inner: QuicSettings { initial_max_stream_data_bidi_remote: v, ..old(config).inner },
            cert_path: old(config).cert_path,
            key_path: old(config).key_path,
        }),
{
}

/// Setting `initial_max_stream_data_uni` sets it to what was given, whatever that is, and sets nothing else.
pub proof fn law_initial_max_stream_data_uni_reads_back(config: &mut Config, v: u64, shown: u64)
    requires
        call_ensures(Config::set_initial_max_stream_data_uni, (config, v), ()),
        call_ensures(Config::get_initial_max_stream_data_uni, (&*final(config),), shown),
    ensures
        shown == v,
        *final(config) == (Config {
            inner: QuicSettings { initial_max_stream_data_uni: v, ..old(config).inner },
            cert_path: old(config).cert_path,
            key_path: old(config).key_path,
        }),
{
}

/// Setting `initial_max_streams_bidi` sets it to what was given, whatever that is, and sets nothing else.
pub proof fn law_initial_max_streams_bidi_reads_back(config: &mut Config, v: u64, shown: u64)
    requires
        call_ensures(Config::set_initial_max_streams_bidi, (config, v), ()),
        call_ensures(Config::get_initial_max_streams_bidi, (&*final(config),), shown),
    ensures
        shown == v,
        *final(config) == (Config {
            inner: QuicSettings { initial_max_streams_bidi: v, ..old(config).inner },
            cert_path: old(config).cert_path,
            key_path: old(config).key_path,
        }),
{
}

/// Setting `initial_max_streams_uni` sets it to what was given, whatever that is, and sets nothing else.
pub proof fn law_initial_max_streams_uni_reads_back(config: &mut Config, v: u64, shown: u64)
    requires
        call_ensures(Config::set_initial_max_streams_uni, (config, v), ()),
        call_ensures(Config::get_initial_max_streams_uni, (&*final(config),), shown),
    ensures
        shown == v,
        *final(config) == (Config {
            inner: QuicSettings { initial_max_streams_uni: v, ..old(config).inner },
            cert_path: old(config).cert_path,
            key_path: old(config).key_path,
        }),
{
}

/// Setting `disable_active_migration` sets it to what was given, whatever that is, and sets nothing else.
pub proof fn law_disable_active_migration_reads_back(config: &mut Config, v: bool, shown: bool)
    requires
        call_ensures(Config::set_disable_active_migration, (config, v), ()),
        call_ensures(Config::get_disable_active_migration, (&*final(config),), shown),
    ensures
        shown == v,
        *final(config) == (Config {
            inner: QuicSettings { disable_active_migration: v, ..old(config).inner },
            cert_path: old(config).cert_path,
            key_path: old(config).key_path,
        }),
{
}

/// Setting `active_connection_id_limit` sets it to what was given, whatever that is, and sets nothing else.
pub proof fn law_active_connection_id_limit_reads_back(config: &mut Config, v: u64, shown: u64)
    requires
        call_ensures(Config::set_active_connection_id_limit, (config, v), ()),
        call_ensures(Config::get_active_connection_id_limit, (&*final(config),), shown),
    ensures
        shown == v,
        *final(config) == (Config {
            inner: QuicSettings { active_connection_id_limit: v, ..old(config).inner },
            cert_path: old(config).cert_path,
            key_path: old(config).key_path,
        }),
{
}

/// Setting `max_recv_udp_payload_size` sets it to what was given, whatever that is, and sets nothing else.
pub proof fn law_max_recv_udp_payload_size_reads_back(config: &mut Config, v: usize, shown: usize)
    requires
        call_ensures(Config::set_max_recv_udp_payload_size, (config, v), ()),
        call_ensures(Config::get_max_recv_udp_payload_size, (&*final(config),), shown),
    ensures
        shown == v,
        *final(config) == (Config {
            inner: QuicSettings { max_recv_udp_payload_size: v, ..old(config).inner },
            cert_path: old(config).cert_path,
            key_path: old(config).key_path,
        }),
{
}

/// Setting `max_send_udp_payload_size` sets it to what was given, whatever that is, and sets nothing else.
pub proof fn law_max_send_udp_payload_size_reads_back(config: &mut Config, v: usize, shown: usize)
    requires
        call_ensures(Config::set_max_send_udp_payload_size, (config, v), ()),
        call_ensures(Config::get_max_send_udp_payload_size, (&*final(config),), shown),
    ensures
        shown == v,
        *final(config) == (Config {
            inner: QuicSettings { max_send_udp_payload_size: v, ..old(config).inner },
            cert_path: old(config).cert_path,
            key_path: old(config).key_path,
        }),
{
}

/// Setting `disable_client_ip_validation` sets it to what was given, whatever that is, and sets nothing else.
pub proof fn law_disable_client_ip_validation_reads_back(config: &mut Config, v: bool, shown: bool)
    requires
        call_ensures(Config::set_disable_client_ip_validation, (config, v), ()),
        call_ensures(Config::get_disable_client_ip_validation, (&*final(config),), shown),
    ensures
        shown == v,
        *final(config) == (Config {
            inner: QuicSettings { disable_client_ip_validation: v, ..old(config).inner },
            cert_path: old(config).cert_path,
            key_path: old(config).key_path,
        }),
{
}

/// Setting `keylog_file` sets it to what was given, whatever that is, and sets nothing else.
pub proof fn law_keylog_file_reads_back(config: &mut Config, v: Option<String>, shown: Option<String>)
    requires
        call_ensures(Config::set_keylog_file, (config, v), ()),
        call_ensures(Config::get_keylog_file, (&*final(config),), shown),
    ensures
        shown == v,
        *final(config) == (Config {
            inner: QuicSettings { keylog_file: v, ..old(config).inner },
            cert_path: old(config).cert_path,
            key_path: old(config).key_path,
        }),
{
}

/// Setting `qlog_dir` sets it to what was given, whatever that is, and sets nothing else.
pub proof fn law_qlog_dir_reads_back(config: &mut Config, v: Option<String>, shown: Option<String>)
    requires
        call_ensures(Config::set_qlog_dir, (config, v), ()),
        call_ensures(Config::get_qlog_dir, (&*final(config),), shown),
    ensures
        shown == v,
        *final(config) == (Config {
            inner: QuicSettings { qlog_dir: v, ..old(config).inner },
            cert_path: old(config).cert_path,
            key_path: old(config).key_path,
        }),
{
}

/// Setting `cc_algorithm` sets it to what was given, whatever that is, and sets nothing else.
pub proof fn law_cc_algorithm_reads_back(config: &mut Config, v: String, shown: String)
    requires
        call_ensures(Config::set_cc_algorithm, (config, v), ()),
        call_ensures(Config::get_cc_algorithm, (&*final(config),), shown),
    ensures
        shown == v,
        *final(config) == (Config {
            inner: QuicSettings { cc_algorithm: v, ..old(config).inner },
            cert_path: old(config).cert_path,
            key_path: old(config).key_path,
        }),
{
}

/// Setting `initial_congestion_window_packets` sets it to what was given, whatever that is, and sets nothing else.
pub proof fn law_initial_congestion_window_packets_reads_back(config: &mut Config, v: usize, shown: usize)
    requires
        call_ensures(Config::set_initial_congestion_window_packets, (config, v), ()),
        call_ensures(Config::get_initial_congestion_window_packets, (&*final(config),), shown),
    ensures
        shown == v,
        *final(config) == (Config {
            inner: QuicSettings { initial_congestion_window_packets: v, ..old(config).inner },
            cert_path: old(config).cert_path,
            key_path: old(config).key_path,
        }),
{
}

/// Setting `enable_relaxed_loss_threshold` sets it to what was given, whatever that is, and sets nothing else.
pub proof fn law_enable_relaxed_loss_threshold_reads_back(config: &mut Config, v: bool, shown: bool)
    requires
        call_ensures(Config::set_enable_relaxed_loss_threshold, (config, v), ()),
        call_ensures(Config::get_enable_relaxed_loss_threshold, (&*final(config),), shown),
    ensures
        shown == v,
        *final(config) == (Config {
            inner: QuicSettings { enable_relaxed_loss_threshold: v, ..old(config).inner },
            cert_path: old(config).cert_path,
            key_path: old(config).key_path,
        }),
{
}

/// Setting `discover_path_mtu` sets it to what was given, whatever that is, and sets nothing else.
pub proof fn law_discover_path_mtu_reads_back(config: &mut Config, v: bool, shown: bool)
    requires
        call_ensures(Config::set_discover_path_mtu, (config, v), ()),
        call_ensures(Config::get_discover_path_mtu, (&*final(config),), shown),
    ensures
        shown == v,
        *final(config) == (Config {
            inner: QuicSettings { discover_path_mtu: v, ..old(config).inner },
            cert_path: old(config).cert_path,
            key_path: old(config).key_path,
        }),
{
}

/// Setting `pmtud_max_probes` sets it to what was given, whatever that is, and sets nothing else.
pub proof fn law_pmtud_max_probes_reads_back(config: &mut Config, v: u8, shown: u8)
    requires
        call_ensures(Config::set_pmtud_max_probes, (config, v), ()),
        call_ensures(Config::get_pmtud_max_probes, (&*final(config),), shown),
    ensures
        shown == v,
        *final(config) == (Config {
            inner: QuicSettings { pmtud_max_probes: v, ..old(config).inner },
            cert_path: old(config).cert_path,
            key_path: old(config).key_path,
        }),
{
}

/// Setting `enable_hystart` sets it to what was given, whatever that is, and sets nothing else.
pub proof fn law_enable_hystart_reads_back(config: &mut Config, v: bool, shown: bool)
    requires
        call_ensures(Config::set_enable_hystart, (config, v), ()),
        call_ensures(Config::get_enable_hystart, (&*final(config),), shown),
    ensures
        shown == v,
        *final(config) == (Config {
            inner: QuicSettings { enable_hystart: v, ..old(config).inner },
            cert_path: old(config).cert_path,
            key_path: old(config).key_path,
        }),
{
}

/// Setting `enable_pacing` sets it to what was given, whatever that is, and sets nothing else.
pub proof fn law_enable_pacing_reads_back(config: &mut Config, v: bool, shown: bool)
    requires
        call_ensures(Config::set_enable_pacing, (config, v), ()),
        call_ensures(Config::get_enable_pacing, (&*final(config),), shown),
    ensures
        shown == v,
        *final(config) == (Config {
            inner: QuicSettings { enable_pacing: v, ..old(config).inner },
            cert_path: old(config).cert_path,
            key_path: old(config).key_path,
        }),
{
}

/// Setting `max_pacing_rate` sets it to what was given, whatever that is, and sets nothing else.
pub proof fn law_max_pacing_rate_reads_back(config: &mut Config, v: Option<u64>, shown: Option<u64>)
    requires
        call_ensures(Config::set_max_pacing_rate, (config, v), ()),
        call_ensures(Config::get_max_pacing_rate, (&*final(config),), shown),
    ensures
        shown == v,
        *final(config) == (Config {
            inner: QuicSettings { max_pacing_rate: v, ..old(config).inner },
            cert_path: old(config).cert_path,
            key_path: old(config).key_path,
        }),
{
}

/// Setting `enable_expensive_packet_count_metrics` sets it to what was given, whatever that is, and sets nothing else.
pub proof fn law_enable_expensive_packet_count_metrics_reads_back(config: &mut Config, v: bool, shown: bool)
    requires
        call_ensures(Config::set_enable_expensive_packet_count_metrics, (config, v), ()),
        call_ensures(Config::get_enable_expensive_packet_count_metrics, (&*final(config),), shown),
    ensures
        shown == v,
        *final(config) == (Config {
            inner: QuicSettings { enable_expensive_packet_count_metrics: v, ..old(config).inner },
            cert_path: old(config).cert_path,
            key_path: old(config).key_path,
        }),
{
}

/// Setting `capture_quiche_logs` sets it to what was given, whatever that is, and sets nothing else.
pub proof fn law_capture_quiche_logs_reads_back(config: &mut Config, v: bool, shown: bool)
    requires
        call_ensures(Config::set_capture_quiche_logs, (config, v), ()),
        call_ensures(Config::get_capture_quiche_logs, (&*final(config),), shown),
    ensures
        shown == v,
        *final(config) == (Config {
            inner: QuicSettings { capture_quiche_logs: v, ..old(config).inner },
            cert_path: old(config).cert_path,
            key_path: old(config).key_path,
        }),
{
}

/// Setting `listen_backlog` sets it to what was given, whatever that is, and sets nothing else.
pub proof fn law_listen_backlog_reads_back(config: &mut Config, v: usize, shown: usize)
    requires
        call_ensures(Config::set_listen_backlog, (config, v), ()),
        call_ensures(Config::get_listen_backlog, (&*final(config),), shown),
    ensures
        shown == v,
        *final(config) == (Config {
            inner: QuicSettings { listen_backlog: v, ..old(config).inner },
            cert_path: old(config).cert_path,
            key_path: old(config).key_path,
        }),
{
}

/// Setting `verify_peer` sets it to what was given, whatever that is, and sets nothing else.
pub proof fn law_verify_peer_reads_back(config: &mut Config, v: bool, shown: bool)
    requires
        call_ensures(Config::set_verify_peer, (config, v), ()),
        call_ensures(Config::get_verify_peer, (&*final(config),), shown),
    ensures
        shown == v,
        *final(config) == (Config {
            inner: QuicSettings { verify_peer: v, ..old(config).inner },
            cert_path: old(config).cert_path,
            key_path: old(config).key_path,
        }),
{
}

/// Setting `max_connection_window` sets it to what was given, whatever that is, and sets nothing else.
pub proof fn law_max_connection_window_reads_back(config: &mut Config, v: u64, shown: u64)
    requires
        call_ensures(Config::set_max_connection_window, (config, v), ()),
        call_ensures(Config::get_max_connection_window, (&*final(config),), shown),
    ensures
        shown == v,
        *final(config) == (Config {
            inner: QuicSettings { max_connection_window: v, ..old(config).inner },
            cert_path: old(config).cert_path,
            key_path: old(config).key_path,
        }),
{
}

/// Setting `max_stream_window` sets it to what was given, whatever that is, and sets nothing else.
pub proof fn law_max_stream_window_reads_back(config: &mut Config, v: u64, shown: u64)
    requires
        call_ensures(Config::set_max_stream_window, (config, v), ()),
        call_ensures(Config::get_max_stream_window, (&*final(config),), shown),
    ensures
        shown == v,
        *final(config) == (Config {
            inner: QuicSettings { max_stream_window: v, ..old(config).inner },
            cert_path: old(config).cert_path,
            key_path: old(config).key_path,
        }),
{
}

/// Setting `enable_send_streams_blocked` sets it to what was given, whatever that is, and sets nothing else.
pub proof fn law_enable_send_streams_blocked_reads_back(config: &mut Config, v: bool, shown: bool)
    requires
        call_ensures(Config::set_enable_send_streams_blocked, (config, v), ()),
        call_ensures(Config::get_enable_send_streams_blocked, (&*final(config),), shown),
    ensures
        shown == v,
        *final(config) == (Config {
            inner: QuicSettings { enable_send_streams_blocked: v, ..old(config).inner },
            cert_path: old(config).cert_path,
            key_path: old(config).key_path,
        }),
{
}

/// Setting `grease` sets it to what was given, whatever that is, and sets nothing else.
pub proof fn law_grease_reads_back(config: &mut Config, v: bool, shown: bool)
    requires
        call_ensures(Config::set_grease, (config, v), ()),
        call_ensures(Config::get_grease, (&*final(config),), shown),
    ensures
        shown == v,
        *final(config) == (Config {
            inner: QuicSettings { grease: v, ..old(config).inner },
            cert_path: old(config).cert_path,
            key_path: old(config).key_path,
        }),
{
}

/// Setting `max_amplification_factor` sets it to what was given, whatever that is, and sets nothing else.
pub proof fn law_max_amplification_factor_reads_back(config: &mut Config, v: usize, shown: usize)
    requires
        call_ensures(Config::set_max_amplification_factor, (config, v), ()),
        call_ensures(Config::get_max_amplification_factor, (&*final(config),), shown),
    ensures
        shown == v,
        *final(config) == (Config {
            inner: QuicSettings { max_amplification_factor: v, ..old(config).inner },
            cert_path: old(config).cert_path,
            key_path: old(config).key_path,
        }),
{
}

/// Setting `send_capacity_factor` sets it to what was given, whatever that is, and sets nothing else.
pub proof fn law_send_capacity_factor_reads_back(config: &mut Config, v: u64, shown: u64)
    requires
        call_ensures(Config::set_send_capacity_factor, (config, v), ()),
        call_ensures(Config::get_send_capacity_factor, (&*final(config),), shown),
    ensures
        shown == v,
        *final(config) == (Config {
            inner: QuicSettings { send_capacity_factor: v, ..old(config).inner },
            cert_path: old(config).cert_path,
            key_path: old(config).key_path,
        }),
{
}

/// Setting `ack_delay_exponent` sets it to what was given, whatever that is, and sets nothing else.
pub proof fn law_ack_delay_exponent_reads_back(config: &mut Config, v: u64, shown: u64)
    requires
        call_ensures(Config::set_ack_delay_exponent, (config, v), ()),
        call_ensures(Config::get_ack_delay_exponent, (&*final(config),), shown),
    ensures
        shown == v,
        *final(config) == (Config {
            inner: QuicSettings { ack_delay_exponent: v, ..old(config).inner },
            cert_path: old(config).cert_path,
            key_path: old(config).key_path,
        }),
{
}

/// Setting `max_ack_delay` sets it to what was given, whatever that is, and sets nothing else.
pub proof fn law_max_ack_delay_reads_back(config: &mut Config, v: u64, shown: u64)
    requires
        call_ensures(Config::set_max_ack_delay, (config, v), ()),
        call_ensures(Config::get_max_ack_delay, (&*final(config),), shown),
    ensures
        shown == v,
        *final(config) == (Config {
            inner: QuicSettings { max_ack_delay: v, ..old(config).inner },
            cert_path: old(config).cert_path,
            key_path: old(config).key_path,
        }),
{
}

/// Setting `max_path_challenge_recv_queue_len` sets it to what was given, whatever that is, and sets nothing else.
pub proof fn law_max_path_challenge_recv_queue_len_reads_back(config: &mut Config, v: usize, shown: usize)
    requires
        call_ensures(Config::set_max_path_challenge_recv_queue_len, (config, v), ()),
        call_ensures(Config::get_max_path_challenge_recv_queue_len, (&*final(config),), shown),
    ensures
        shown == v,
        *final(config) == (Config {
            inner: QuicSettings { max_path_challenge_recv_queue_len: v, ..old(config).inner },
            cert_path: old(config).cert_path,
            key_path: old(config).key_path,
        }),
{
}

/// Setting `disable_dcid_reuse` sets it to what was given, whatever that is, and sets nothing else.
pub proof fn law_disable_dcid_reuse_reads_back(config: &mut Config, v: bool, shown: bool)
    requires
        call_ensures(Config::set_disable_dcid_reuse, (config, v), ()),
        call_ensures(Config::get_disable_dcid_reuse, (&*final(config),), shown),
    ensures
        shown == v,
        *final(config) == (Config {
            inner: QuicSettings { disable_dcid_reuse: v, ..old(config).inner },
            cert_path: old(config).cert_path,
            key_path: old(config).key_path,
        }),
{
}

/// Setting `track_unknown_transport_parameters` sets it to what was given, whatever that is, and sets nothing else.
pub proof fn law_track_unknown_transport_parameters_reads_back(config: &mut Config, v: Option<usize>, shown: Option<usize>)
    requires
        call_ensures(Config::set_track_unknown_transport_parameters, (config, v), ()),
        call_ensures(Config::get_track_unknown_transport_parameters, (&*final(config),), shown),
    ensures
        shown == v,
        *final(config) == (Config {
            inner: QuicSettings { track_unknown_transport_parameters: v, ..old(config).inner },
            cert_path: old(config).cert_path,
            key_path: old(config).key_path,
        }),
{
}

/// Setting `max_idle_timeout` makes it last as many milliseconds as were given, whatever their number, and it
/// is shown as that many; nothing else is set.
pub proof fn law_max_idle_timeout_reads_back(config: &mut Config, v: Option<u64>, shown: Option<u64>)
    requires
        call_ensures(Config::set_max_idle_timeout, (config, v), ()),
        call_ensures(Config::get_max_idle_timeout, (&*final(config),), shown),
    ensures
        shown == v,
        final(config).inner.max_idle_timeout is Some <==> v is Some,
        v matches Some(ms) ==> final(config).inner.max_idle_timeout->0.secs * 1_000_000_000
            + final(config).inner.max_idle_timeout->0.nanos == ms * 1_000_000,
        *final(config) == (Config {
            inner: QuicSettings {
                max_idle_timeout: final(config).inner.max_idle_timeout,
                ..old(config).inner
            },
            cert_path: old(config).cert_path,
            key_path: old(config).key_path,
        }),
{
    law_timeout_is_exact(v);
    law_timeout_is_kept(v, shown);
}

/// Setting `handshake_timeout` makes it last as many milliseconds as were given, whatever their number, and it
/// is shown as that many; nothing else is set.
pub proof fn law_handshake_timeout_reads_back(config: &mut Config, v: Option<u64>, shown: Option<u64>)
    requires
        call_ensures(Config::set_handshake_timeout, (config, v), ()),
        call_ensures(Config::get_handshake_timeout, (&*final(config),), shown),
    ensures
        shown == v,
        final(config).inner.handshake_timeout is Some <==> v is Some,
        v matches Some(ms) ==> final(config).inner.handshake_timeout->0.secs * 1_000_000_000
            + final(config).inner.handshake_timeout->0.nanos == ms * 1_000_000,
        *final(config) == (Config {
            inner: QuicSettings {
                handshake_timeout: final(config).inner.handshake_timeout,
                ..old(config).inner
            },
            cert_path: old(config).cert_path,
            key_path: old(config).key_path,
        }),
{
    law_timeout_is_exact(v);
    law_timeout_is_kept(v, shown);
}

/// Setting `cert_path` sets it to what was given, and sets nothing else.
pub proof fn law_cert_path_reads_back(config: &mut Config, v: String, shown: &str)
    requires
        call_ensures(Config::set_cert_path, (config, v), ()),
        call_ensures(Config::get_cert_path, (&*final(config),), shown),
    ensures
        shown@ == v@,
        *final(config) == (Config {
            inner: old(config).inner,
            cert_path: v,
            key_path: old(config).key_path,
        }),
{
}

/// Setting `key_path` sets it to what was given, and sets nothing else.
pub proof fn law_key_path_reads_back(config: &mut Config, v: String, shown: &str)
    requires
        call_ensures(Config::set_key_path, (config, v), ()),
        call_ensures(Config::get_key_path, (&*final(config),), shown),
    ensures
        shown@ == v@,
        *final(config) == (Config {
            inner: old(config).inner,
            key_path: v,
            cert_path: old(config).cert_path,
        }),
{
}

/// Setting the application protocols offers each text that was given, in its place and in UTF-8, and
/// they are shown as given; nothing else is set.
pub proof fn law_alpn_reads_back(config: &mut Config, v: Vec<String>, shown: Vec<String>, i: int)
    requires
        call_ensures(Config::set_alpn, (config, v), ()),
        call_ensures(Config::get_alpn, (&*final(config),), shown),
        0 <= i < v@.len(),
    ensures
        shown@.len() == v@.len(),
        final(config).inner.alpn@.len() == v@.len(),
        shown@[i]@ == v@[i]@,
        final(config).inner.alpn@[i]@ == encode_utf8(v@[i]@),
        *final(config) == (Config {
            inner: QuicSettings { alpn: final(config).inner.alpn, ..old(config).inner },
            cert_path: old(config).cert_path,
            key_path: old(config).key_path,
        }),
{
    law_alpn_is_kept(final(config).inner.alpn@, v@, shown@);
    assert(final(config).inner.alpn@[i]@ == encode_utf8(v@[i]@));
}

/// The token that is set is the number that the text stands for, if it stands for one, and is shown
/// by its digits; no text clears it, and any other leaves it. Nothing else is set.
pub proof fn law_stateless_reset_token_reads_back(
    config: &mut Config,
    v: Option<String>,
    shown: Option<String>,
)
    requires
        call_ensures(Config::set_stateless_reset_token, (config, v), ()),
        call_ensures(Config::get_stateless_reset_token, (&*final(config),), shown),
    ensures
        v is None ==> final(config).inner.stateless_reset_token is None,
        v matches Some(text) ==> match numeral_value(text@, 16, u128::MAX as nat) {
            Some(n) => {
                &&& final(config).inner.stateless_reset_token matches Some(t)
                &&& t as nat == n
                &&& shown matches Some(digits)
                &&& digits@ == number_text(n, 16)
            },
            None => final(config).inner.stateless_reset_token == old(config).inner.stateless_reset_token,
        },
        *final(config) == (Config {
            inner: QuicSettings {
                stateless_reset_token: final(config).inner.stateless_reset_token,
                ..old(config).inner
            },
            cert_path: old(config).cert_path,
            key_path: old(config).key_path,
        }),
{
}

/// A token survives being shown and set again.
pub proof fn law_shown_token_sets_itself(
    config: &Config,
    shown: Option<String>,
    other: &mut Config,
)
    requires
        call_ensures(Config::get_stateless_reset_token, (config,), shown),
        call_ensures(Config::set_stateless_reset_token, (other, shown), ()),
    ensures
        final(other).inner.stateless_reset_token == config.inner.stateless_reset_token,
{
    if let Some(t) = config.inner.stateless_reset_token {
        law_token_is_kept(t, old(other).inner.stateless_reset_token, shown->0);
    }
}

/// A new configuration holds what it was made of.
pub proof fn law_construct_reads_back(
    cert_path: String,
    key_path: String,
    defaults: QuicSettings,
    r: Config,
)
    requires
        call_ensures(Config::__construct, (cert_path, key_path, defaults), r),
    ensures
        r.cert_path == cert_path,
        r.key_path == key_path,
        r.inner == defaults,
{
}

} // verus!
