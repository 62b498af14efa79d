[package]
name = "tauri-plugin-sql"
version = "0.1.0"
edition = "2021"
publish = false

[dependencies]
uuid = { version = "=1.29.0", features = ["v4"] }
rusqlite = { version = "=0.41.1", features = ["bundled"] }
serde = { version = "=1.0.229", features = ["derive"] }
serde_json = "=1.0.154"
indexmap = { version = "=2.14.2", features = ["serde"] }
log = "=0.4.35"
tauri = { version = "2", default-features = false }
