[package]
name = "smarttodo"
version = "0.1.0"
edition = "2021"
publish = false

[dependencies]
anyhow = "=1.0.104"
cpal = "=0.15.3"
futures-util = "=0.3.34"
parking_lot = "=0.12.5"
reqwest = { version = "=0.12.28", features = ["stream"] }
serde = { version = "=1.0.229", features = ["derive"] }
tokio = { version = "=1.54.1", features = ["fs", "io-util", "rt"] }
whisper-rs = "=0.14.4"
