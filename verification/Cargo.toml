[package]
name = "pokeys_thread"
version = "0.1.0"
edition = "2021"
publish = false

[dependencies]
pokeys-lib = "*"
crossbeam-channel = "*"
parking_lot = "*"
log = "*"
dirs = "*"
serde = { version = "*", features = ["derive"] }
thiserror = "*"
