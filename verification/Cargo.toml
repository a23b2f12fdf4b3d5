[package]
name = "todo_tui"
version = "0.1.0"
edition = "2021"
publish = false

[dependencies]
rusqlite = { version = "*", features = ["bundled", "uuid"] }
uuid = { version = "*", features = ["v4"] }
crossterm = "*"
ratatui = "*"
color-eyre = "*"
