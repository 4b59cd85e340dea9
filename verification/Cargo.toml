[package]
name = "wstunnel_manager"
version = "0.1.0"
edition = "2021"
publish = false

[dependencies]
anyhow = "=1.0.104"
arc-swap = "=1.9.3"
chrono = "=0.4.45"
clap = "=4.6.7"
humantime = "=2.4.0"
iced = { version = "0.13", default-features = false, features = ["tiny-skia", "tokio"] }
notify = "=8.2.0"
open = "=5.4.5"
serde = { version = "=1.0.229", features = ["derive"] }
serde_yaml = "=0.9.34+deprecated"
tokio = { version = "=1.54.1", features = ["full"] }
tokio-util = "=0.7.20"
tracing = "=0.1.44"
tracing-appender = "=0.2.5"
tracing-subscriber = { version = "=0.3.23", features = ["env-filter", "json"] }
uuid = { version = "=1.29.0", features = ["v4", "serde"] }
