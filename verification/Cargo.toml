[package]
name = "scope_radio"
version = "0.1.0"
edition = "2021"
publish = false

[dependencies]
anyhow = "1"
clap = { version = "4", features = ["derive"] }
cpal = "0.15"
crossterm = "0.28"
duckdb = "1"
ratatui = "0.29"
rodio = "0.19"
serde = { version = "1", features = ["derive"] }
serde_derive = "1"
serde_json = "1"
