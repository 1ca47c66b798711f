[package]
name = "tauri-plugin-clipboard"
version = "0.1.0"
edition = "2021"
publish = false

[dependencies]
arboard = "3"
base64 = "0.22"
clipboard-rs = "0.2"
image = "0.25"
serde = { version = "1", features = ["derive"] }
