# quiche_socket

A QUIC server socket for PHP. The decisions are in a library that Verus verifies; the network, the
clock and the script stay outside it.

- `src/` is the verified library.
  - `quiche/driver.rs`: the driver of a connection. It is told what the QUIC connection answered and
    says what to ask of it next. `quiche/read_order.rs` and `quiche/write_order.rs` state what holds
    of its reports and of the bytes it writes.
  - `quiche/socket.rs`: the server, which turns events into actions. `quiche/lifecycle.rs` states how
    connections and streams come and go, and that the end of a stream is told once.
  - `quiche/conn.rs`, `stream.rs`, `quiche/stream.rs`, `quiche/data.rs`: connections and streams.
  - `config.rs`, `conn.rs`, `php.rs`, `text.rs`: settings, addresses, values, numbers as text.
  - `channel.rs` and `payload.rs` hold what is taken on trust of `tokio` and `bytes`; `config.rs`
    holds one such function of `std`.
- `app/` is the PHP extension around the library.
- `tests/` runs the library with the real crates.
