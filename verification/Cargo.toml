[package]
name = "zapcut"
version = "0.1.0"
edition = "2021"
publish = false

[dependencies]
anyhow = "1"
base64 = "0.22"
chrono = "0.4"
dirs = "5"
http = "1"
lazy_static = "1"
serde = { version = "1", features = ["derive"] }
serde_json = "1"
tauri = { version = "2", default-features = false }
tauri-plugin-fs = "2"
tokio = { version = "1", features = ["fs", "sync"] }
urlencoding = "2"
uuid = { version = "1", features = ["v4"] }
