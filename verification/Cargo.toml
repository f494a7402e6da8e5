[package]
name = "unirtc"
version = "0.1.0"
edition = "2021"
publish = false

[dependencies]
webrtc = "=0.14.0"
maybe-sync = { version = "=0.1.1", features = ["sync"] }
serde = { version = "=1.0.229", features = ["derive"] }
thiserror = "=2.0.21"
tokio = { version = "=1.53.2", features = ["rt-multi-thread", "sync", "time"] }
