[package]
name = "kernel_supervisor"
version = "0.1.0"
edition = "2021"
publish = false

[dependencies]
regex = "1"
semver = "1"
serde = { version = "1", features = ["derive"] }
serde_json = "1"
reqwest = { version = "0.12", default-features = false, features = ["blocking", "json"] }
tokio = { version = "1", features = ["time"] }
log = "0.4"
chrono = { version = "0.4", default-features = false, features = ["clock"] }
zip = { version = "2", default-features = false, features = ["deflate"] }
tauri = { version = "2", default-features = false }
tauri-plugin-log = "2"
tauri-plugin-process = "2"
tauri-plugin-fs = "2"
