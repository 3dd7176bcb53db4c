[package]
name = "io-tether"
version = "0.2.0"
edition = "2021"
publish = false

[dependencies]
tokio = { version = "1", features = ["fs", "net", "io-util", "rt", "time", "sync"] }
futures-core = "0.3"
futures-sink = "0.3"
