[package]
name = "job_tracker"
version = "0.1.0"
edition = "2021"
publish = false

[dependencies]
ratatui = "0.29"
crossterm = "0.28"
tui-textarea = "0.7"
tokio = { version = "1", features = ["sync", "rt", "macros", "time"] }
rusqlite = { version = "*", features = ["bundled"] }
serde = { version = "1", features = ["derive"] }
strum = { version = "*", features = ["derive"] }
color-eyre = "0.6"
tracing = "0.1"
