[package]
name = "inspectah"
version = "0.1.0"
edition = "2021"
publish = false

[dependencies]
anyhow = "*"
clap = { version = "4", features = ["derive"] }
crossterm = "*"
libc = "*"
ratatui = "*"
serde = { version = "1", features = ["derive"] }
serde_json = "1"
terminal_size = "*"
