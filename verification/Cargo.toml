[package]
name = "viewport"
version = "0.1.0"
edition = "2021"
publish = false

[dependencies]
crossbeam-channel = "0.5"
ash = "0.37"
ash-window = "0.12"
raw-window-handle = "0.5"
parking_lot = "0.12"
log = "0.4"
env_logger = "0.10"
serde = { version = "1", features = ["derive"] }
