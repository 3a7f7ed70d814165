[package]
name = "channel_server"
version = "0.1.0"
edition = "2021"
publish = false

[dependencies]
ahash = "0.8"
anyhow = "1"
bytes = "1"
crossbeam = "0.8"
egui = { version = "0.27", default-features = false }
log = "0.4"
serde = { version = "1", features = ["derive"] }
serde_json = "1"
thiserror = "1"
