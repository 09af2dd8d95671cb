[package]
name = "terminal_core"
version = "0.1.0"
edition = "2021"
publish = false

[dependencies]
regex = "1"
serde = { version = "1", features = ["derive"] }
serde_json = "1"
once_cell = "1"
lazy_static = "1"
tauri = { version = "2", default-features = false }
