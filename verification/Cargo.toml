[package]
name = "timers"
version = "0.1.0"
edition = "2021"
publish = false

[dependencies]
chrono = "*"
crossterm = "*"
dirs = "*"
ratatui = "*"
rusqlite = { version = "*", features = ["bundled"] }

[dev-dependencies]
tempfile = "*"
