[package]
name = "codex_account_switcher"
version = "0.1.0"
edition = "2021"
publish = false

[dependencies]
base64 = "0.22"
serde = { version = "1", features = ["derive"] }
serde_json = "1"
uuid = { version = "1", features = ["v4"] }
dirs = "6"
log = "0.4"
reqwest = { version = "0.12", default-features = false, features = ["json"] }
tokio = { version = "1", features = ["sync"] }
tauri = { version = "2", default-features = false }
tauri-plugin-process = "2"
