[package]
name = "vam_downloader"
version = "0.1.0"
edition = "2021"
publish = false

[dependencies]
anyhow = "=1.0.104"
http-downloader = { version = "=0.3.2", features = ["speed-limiter", "speed-tracker", "status-tracker"] }
indicatif = "=0.17.11"
percent-encoding = "=2.3.2"
regex = "=1.13.1"
reqwest = { version = "=0.12.28", features = ["json"] }
tokio = { version = "=1.54.1", features = ["full"] }
tracing = "=0.1.44"
tracing-appender = "=0.2.5"
tracing-subscriber = "=0.3.23"
url = "=2.5.8"
