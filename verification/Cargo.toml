[package]
name = "alice-cloud-gateway"
version = "0.1.0"
edition = "2021"
publish = false

[dependencies]
alice-crypto = "=0.4.1"
alice-db = { version = "=0.5.1", features = ["sdf"] }
alice-cache = "=0.2.0"
alice-sync = { version = "=0.6.1", features = ["cloud"] }
alice-analytics = "=0.6.0"
parking_lot = "=0.12.5"
log = "=0.4.35"
env_logger = "=0.11.11"
tokio = { version = "=1.54.1", features = ["rt-multi-thread", "net", "macros"] }

[dev-dependencies]
tempfile = "=3.27.0"
