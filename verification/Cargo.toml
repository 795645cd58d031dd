[package]
name = "doorbot"
version = "0.1.0"
edition = "2021"
publish = false

[dependencies]
bytes = "1"
serde = { version = "1", features = ["derive"] }
serde_json = "1"
tokio = { version = "1", features = ["rt-multi-thread", "macros", "time", "fs", "io-std", "io-util"] }
tokio-util = { version = "0.7", features = ["codec"] }
tokio-serial = { version = "5", default-features = false }
futures = "0.3"
