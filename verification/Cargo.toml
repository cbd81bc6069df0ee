[package]
name = "discord"
version = "0.1.0"
edition = "2021"
publish = false

[dependencies]
serde_json = "*"
reqwest = { version = "*", default-features = false, features = ["json", "rustls-tls"] }
tokio = { version = "*", features = ["rt", "rt-multi-thread", "time", "sync", "macros"] }
tokio-tungstenite = "*"
futures = "*"
