[package]
name = "mod_manager"
version = "0.1.0"
edition = "2021"
publish = false

[dependencies]
futures-util = "0.3"
serde = { version = "1", features = ["derive"] }
serde_json = "1"
steamworks = "0.11"
tauri = { version = "2", default-features = false }
tokio = { version = "1", features = ["rt", "sync", "macros"] }
