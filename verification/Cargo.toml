[package]
name = "stt_core"
version = "0.1.0"
edition = "2021"
publish = false

[dependencies]
directories = "6"
log = "0.4"
parking_lot = "0.12"
rdev = "0.5"
rusqlite = { version = "0.32", features = ["bundled"] }
serde = { version = "1", features = ["derive"] }
serde_json = "1"
tauri = { version = "2", default-features = false }
tauri-plugin-log = "2"
thiserror = "1"
