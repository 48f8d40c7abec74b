[package]
name = "mpsc_kv"
version = "0.1.0"
edition = "2021"
publish = false

[dependencies]
anyhow = "*"
bytes = "*"
thiserror = "*"
tokio = { version = "*", features = ["rt-multi-thread", "net", "io-util", "macros"] }
tracing = "*"
tracing-subscriber = "*"
uuid = { version = "*", features = ["v4"] }
