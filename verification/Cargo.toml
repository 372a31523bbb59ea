[package]
name = "semtech_udp"
version = "0.1.0"
edition = "2021"
publish = false

[dependencies]
serde_json = "*"
rand = "*"
tokio = { version = "*", features = ["net", "sync", "rt", "rt-multi-thread"] }
