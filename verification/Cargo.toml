[package]
name = "elrust_session"
version = "0.1.0"
edition = "2021"
publish = false

[dependencies]
tokio = { version = "*", features = ["rt-multi-thread", "sync", "time"] }
tokio-util = "*"
crossbeam-channel = "*"
uuid = { version = "*", features = ["v4"] }
serde = { version = "*", features = ["derive"] }
serde_json = "*"
libloading = "*"
dirs = "*"
log = "*"
