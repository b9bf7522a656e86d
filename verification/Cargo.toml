[package]
name = "barter"
version = "0.1.0"
edition = "2021"
publish = false

[dependencies]
barter-data = "=0.2.11"
chrono = "=0.4.45"
log = "=0.4.34"
serde = { version = "=1.0.229", features = ["derive"] }
tokio = { version = "=1.54.1", features = ["sync", "rt"] }
tokio-stream = "=0.1.19"
uuid = { version = "=1.29.0", features = ["v4"] }
