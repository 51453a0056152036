[package]
name = "pulseshitter"
version = "0.1.0"
edition = "2021"
publish = false

[dependencies]
regex = "1"
strsim = "0.10"
ringbuf = "0.3"
crossbeam = "0.8"
parking_lot = "0.12"
libpulse-binding = "2"
songbird = "0.3"
serenity = { version = "0.11", default-features = false, features = ["builder", "cache", "client", "gateway", "model", "http", "utils", "rustls_backend", "voice"] }
tokio = { version = "1", features = ["rt-multi-thread", "macros"] }
tui = "0.19"
crossterm = "0.25"
tui-textarea = "0.2"
enum-iterator = "1"
reqwest = { version = "0.11", default-features = false, features = ["json", "rustls-tls"] }
ron = "0.8"
serde = { version = "1", features = ["derive"] }
thiserror = "1"
multiversion = "0.7"
lazy_static = "1"
