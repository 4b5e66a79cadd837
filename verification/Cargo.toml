[package]
name = "anilist"
version = "0.1.0"
edition = "2021"
publish = false

[dependencies]
serde_json = "1"
serde = { version = "1", features = ["derive"] }
base64 = "0.22"
html5tokenizer = "*"
chrono = "0.4"
chrono-tz = "*"
iana-time-zone = "*"
thiserror = "2"
reqwest = { version = "0.12", default-features = false, features = ["rustls-tls"] }
futures = "0.3"
futures-timer = "3"
tokio = { version = "1", features = ["rt-multi-thread", "macros"] }
scraper = "*"
open = "5"
uniffi = "*"
