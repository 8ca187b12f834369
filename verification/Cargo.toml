[package]
name = "loom"
version = "0.1.0"
edition = "2021"
publish = false

[dependencies]
maud = "=0.26.0"
serde = { version = "=1.0.229", features = ["derive"] }
serde_json = "=1.0.154"
sha2 = "=0.10.9"
regex = "=1.13.1"
walkdir = "=2.5.0"
anyhow = "=1.0.104"
egui = { version = "*", default-features = false }
ratatui = { version = "*", default-features = false }
