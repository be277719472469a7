[package]
name = "simplex_tui"
version = "0.1.0"
edition = "2021"
publish = false

[dependencies]
serde_json = "*"
chrono = "*"
anyhow = "*"
crossterm = "*"
futures-util = "*"
ratatui = "*"
ratatui-explorer = "*"
serde = { version = "*", features = ["derive"] }
tokio = { version = "*", features = ["rt-multi-thread", "time", "net", "macros"] }
tokio-tungstenite = "*"
