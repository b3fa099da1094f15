[package]
name = "tomatui"
version = "0.1.5"
edition = "2021"
publish = false

[dependencies]
chrono = "0.4"
clap = { version = "4", features = ["derive"] }
crossterm = "0.29"
dirs = "6"
ratatui = "0.30"
serde = { version = "1", features = ["derive"] }
serde_json = "1"
tui-big-text = "0.8"
