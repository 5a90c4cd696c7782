[package]
name = "agentty_tui"
version = "0.1.0"
edition = "2021"
publish = false

[dependencies]
crossterm = "0.29"
ratatui = "0.30"
rustc-hash = "2"
tokio = { version = "1", features = ["macros", "rt", "sync", "time"] }
tracing = "0.1"
