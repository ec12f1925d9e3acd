[package]
name = "sync_relay"
version = "0.1.0"
edition = "2021"
publish = false

[dependencies]
tokio = { version = "1", features = ["rt-multi-thread", "net", "sync", "macros", "io-util", "time"] }
tokio-tungstenite = "*"
futures-util = "0.3"
local-ip-address = "*"
reqwest = { version = "0.12", default-features = false }
