[package]
name = "update_coordinator"
version = "0.1.0"
edition = "2021"
publish = false

[dependencies]
log = "0.4"
open = "5"
serde = { version = "1", features = ["derive"] }
tauri = { version = "2", default-features = false }
tauri-plugin-log = { version = "2", default-features = false }
tauri-plugin-updater = { version = "2", default-features = false }
tokio = { version = "1", default-features = false, features = ["time"] }
