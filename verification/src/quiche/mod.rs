//! Connections: their drivers, their streams, and the server that serves them.

pub mod conn;
pub mod data;
pub mod driver;
pub mod error;
pub mod lifecycle;
pub mod read_order;
pub mod runtime;
pub mod service;
pub mod socket;
pub mod stream;
pub mod write_order;
