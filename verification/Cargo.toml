[package]
name = "dsh-desktop"
version = "0.2.2"
edition = "2021"
publish = false

[dependencies]
libc = "0.2"
serde = { version = "1", features = ["derive"] }
tauri = { version = "2", default-features = false, features = ["wry", "tray-icon", "devtools"] }
tauri-plugin-dialog = "2"
url = "2"
