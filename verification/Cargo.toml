[package]
name = "gemini_shell"
version = "0.1.0"
edition = "2021"
publish = false

[dependencies]
log = "0.4"
serde = "1"
serde_json = "1"
thiserror = "2"
tauri = { version = "2", default-features = false }
