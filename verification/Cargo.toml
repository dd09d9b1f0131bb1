[package]
name = "starship_manager"
version = "0.1.0"
edition = "2021"
publish = false

[dependencies]
toml_edit = "0.22"
anyhow = "1"
dirs = "5"
tempfile = "3"
serde = { version = "1", features = ["derive"] }
serde_json = "1"
ratatui = "0.29"
crossterm = "0.28"
