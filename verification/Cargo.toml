[package]
name = "cci"
version = "0.1.0"
edition = "2021"
publish = false

[dependencies]
serde_yaml = "*"
cargo_toml = "*"
serde = { version = "*", features = ["derive"] }
ron = "*"
anyhow = "*"
clap = { version = "*", features = ["derive"] }
colored = "*"
crossterm = "*"
ratatui = "*"
