[package]
name = "monk_tray"
version = "0.1.0"
edition = "2021"
publish = false

[dependencies]
log = "0.4"
tauri = { version = "2", default-features = false, features = ["wry", "tray-icon"] }
tauri-plugin-fs = { version = "2", default-features = false }
