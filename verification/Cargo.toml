[package]
name = "ade_terminal"
version = "0.1.0"
edition = "2021"
publish = false

[dependencies]
anyhow = "1"
base64 = "=0.21.7"
parking_lot = "0.12"
portable-pty = "=0.8.1"
serde = { version = "1", features = ["derive"] }
serde_json = "1"
tokio = { version = "1", features = ["time", "rt"] }
tokio-util = "0.7"
tracing = "0.1"
which = "=4.4.2"
