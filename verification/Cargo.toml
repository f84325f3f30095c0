[package]
name = "a-factory-game-launcher"
version = "0.1.0"
edition = "2021"
publish = false

[dependencies]
md-5 = "0.10"
anyhow = "1"
serde = { version = "1", features = ["derive"] }
serde_json = "1"
tracing = "0.1"
tracing-subscriber = "0.3"
cached = "0.56"
lazy_static = "1"
human-panic = "2"
reqwest = { version = "0.12", default-features = false, features = ["blocking", "json", "rustls-tls"] }
