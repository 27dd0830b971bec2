[package]
name = "twitch_notifier"
version = "0.1.0"
edition = "2021"
publish = false

[dependencies]
config = "*"
notify-rust = "*"
reqwest = { version = "*", default-features = false, features = ["rustls-tls"] }
serde = { version = "*", features = ["derive"] }
tokio = { version = "*", features = ["full"] }
tracing = "*"
tracing-subscriber = "*"
