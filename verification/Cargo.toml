[package]
name = "meeting_local"
version = "0.1.0"
edition = "2021"
publish = false

[dependencies]
serde = { version = "1", features = ["derive"] }
serde_json = "1"
regex = "1"
uuid = { version = "1", features = ["v4"] }
chrono = "0.4"
dashmap = "6"
tokio-util = "0.7"
tokio = { version = "1", features = ["sync", "rt"] }
once_cell = "1"
log = "0.4"
anyhow = "1"
sysinfo = "*"
rusqlite = { version = "*", features = ["bundled"] }
