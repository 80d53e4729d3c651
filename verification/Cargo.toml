[package]
name = "magik_core"
version = "0.1.0"
edition = "2021"
publish = false

[dependencies]
anyhow = "1"
chrono = "0.4"
crossterm = "*"
futures = "0.3"
once_cell = "1"
ratatui = "*"
schemars = "*"
serde = { version = "1", features = ["derive"] }
tokio = { version = "1", features = ["rt-multi-thread", "time", "fs", "sync"] }
toml = "*"
toml_edit = "*"
tracing = "0.1"
ts-rs = "*"
uuid = { version = "1", features = ["v4"] }
