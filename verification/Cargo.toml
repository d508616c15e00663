[package]
name = "speedreader"
version = "0.1.0"
edition = "2021"
publish = false

[dependencies]
cli-clipboard = "*"
directories = "*"
ratatui = "*"
serde = { version = "1", features = ["derive"] }
serde_json = "1"
