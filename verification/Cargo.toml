[package]
name = "quiche_socket"
version = "0.1.0"
edition = "2021"
publish = false

[dependencies]
bytes = "1"
env_logger = { version = "0.11", default-features = false }
ext-php-rs = { version = "0.15", default-features = false }
futures = { version = "0.3", default-features = false, features = ["std"] }
gettid = "0.1"
libc = "0.2"
log = "0.4"
parking_lot = "0.12"
thiserror = "2"
tokio = { version = "1", features = ["io-util", "macros", "net", "rt-multi-thread", "sync"] }
tokio-eventfd = "0.2"
tokio-quiche = { version = "0.18", default-features = false }
