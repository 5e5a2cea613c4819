[package]
name = "storage_cache"
version = "0.1.0"
edition = "2021"
publish = false

[dependencies]
uuid = { version = "=1.29.0", features = ["v4", "serde"] }
sha2 = "=0.10.9"
zstd = "=0.13.3"
serde = { version = "=1.0.229", features = ["derive"] }
serde_json = "=1.0.154"
parking_lot = { version = "=0.12.5", features = ["arc_lock", "send_guard"] }
thiserror = "=1.0.69"
log = "=0.4.34"
rocket = "=0.5.2"
