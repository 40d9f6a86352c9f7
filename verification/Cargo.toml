[package]
name = "gateway_shard"
version = "0.1.0"
edition = "2021"
publish = false

[dependencies]
fastrand = "2"
futures = "0.3"
log = "0.4"
once_cell = "1"
parking_lot = "0.12"
serde = { version = "1", features = ["derive"] }
serde_json = { version = "1", features = ["raw_value"] }
tokio = { version = "1", features = ["macros", "net", "rt", "sync", "time"] }
tokio-tungstenite = "0.20"
