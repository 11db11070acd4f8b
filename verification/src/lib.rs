//! A QUIC server socket for PHP, without its input and output.
//!
//! [`quiche`] holds the driver of a connection and the server that the drivers report to,
//! [`stream`] the objects through which a script uses a stream, [`conn`] the server object and the
//! addresses it binds, [`config`] its settings. What talks to the network, to the clock or to the
//! script is told here what to do, and tells what came of it.

pub mod calls;
pub mod channel;
pub mod config;
pub mod config_calls;
pub mod conn;
pub mod payload;
pub mod php;
pub mod quiche;
pub mod stream;
pub mod text;
