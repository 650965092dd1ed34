[package]
name = "accord_console"
version = "0.1.0"
edition = "2021"
publish = false

[dependencies]
anyhow = "1"
crossterm = { version = "=0.28.1", features = ["event-stream"] }
futures = "0.3"
multiaddr = "=0.19.1"
ratatui = "=0.29.0"
serde_json = "1"
tokio = { version = "1", features = ["macros", "rt-multi-thread", "sync", "time"] }
