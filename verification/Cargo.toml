[package]
name = "desktop_commands"
version = "0.1.0"
edition = "2021"
publish = false

[dependencies]
tauri = { version = "=2.12.5", default-features = false, features = ["wry"] }
tauri-plugin-fs = { version = "=2.7.1", default-features = false }
tauri-plugin-store = { version = "=2.5.0", default-features = false }
