[package]
name = "zux_chain"
version = "0.1.0"
edition = "2021"
publish = false

[dependencies]
base64 = "0.21"
chrono = "0.4"
crossterm = "0.25"
ed25519-dalek = { version = "2", features = ["rand_core"] }
hex = "0.4"
log = "0.4"
rand = "0.8"
serde = { version = "1", features = ["derive"] }
serde_json = "1"
sha2 = "0.10"
simple_logger = "4"
thiserror = "1"
tui = "0.19"
