[package]
name = "unifi_core"
version = "0.1.0"
edition = "2021"
publish = false

[dependencies]
uuid = { version = "=1.29.0", features = ["v4"] }
url = "=2.5.8"
dashmap = "=6.2.1"
chrono = "=0.4.45"
serde = { version = "=1.0.229", features = ["derive"] }
serde_json = "=1.0.154"
thiserror = "=2.0.21"
secrecy = "=0.10.3"
tokio = { version = "=1.54.1", features = ["rt-multi-thread", "macros", "sync", "time"] }
tokio-util = "=0.7.20"
crossterm = "=0.28.1"
ratatui = "=0.29.0"
clap = { version = "=4.6.7", features = ["derive"] }
color-eyre = "=0.6.5"
tracing = "=0.1.44"
toml = "0.8"
