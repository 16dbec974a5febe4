[package]
name = "musico"
version = "0.1.0"
edition = "2021"
publish = false

[dependencies]
rand = "0.8"
dirs = "5"
uuid = { version = "1", features = ["v4"] }
serde = { version = "1", features = ["derive"] }
serde_json = "1"
walkdir = "2"
chrono = "0.4"
sled = "0.34"
bincode = "1"
symphonia = { version = "0.5", features = ["all"] }
rustfft = "6"
thiserror = "1"
log = "0.4"
crossbeam-channel = "0.5"
ringbuf = "0.3"
rubato = "0.15"
env_logger = "0.11"
