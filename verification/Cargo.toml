[package]
name = "relayport_rs"
version = "0.4.0"
edition = "2021"
publish = false

[dependencies]
socket2 = "0.5"
tokio = { version = "1", features = ["full"] }
tracing = "0.1"
