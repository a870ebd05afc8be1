[package]
name = "backend_bridge"
version = "0.1.0"
edition = "2021"
publish = false

[dependencies]
reqwest = { version = "*", default-features = false }
tauri = { version = "*", default-features = false }
