[package]
name = "awake-core"
version = "0.1.0"
edition = "2021"
publish = false

[dependencies]
core-foundation = "0.10"
core-foundation-sys = "0.8"
serde = { version = "1", features = ["derive"] }
serde_json = "1"
tauri = { version = "2", default-features = false, features = ["tray-icon", "image-png", "wry"] }
