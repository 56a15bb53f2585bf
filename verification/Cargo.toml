[package]
name = "tap_bridge"
version = "0.1.0"
edition = "2021"
publish = false

[dependencies]
uuid = { version = "=1.29.0", features = ["v4", "serde"] }
serde_json = "=1.0.154"
serde = { version = "=1.0.229", features = ["derive"] }
tokio = { version = "=1.54.1", features = ["sync"] }
log = "=0.4.34"
async-trait = "=0.1.92"
tauri = { version = "2", default-features = false }
