[package]
name = "restic_restore"
version = "0.1.0"
edition = "2021"
publish = false

[dependencies]
serde = { version = "1", features = ["derive"] }
serde_json = "1"
dirs = "*"
chrono = "0.4"
rusqlite = { version = "*", features = ["bundled"] }
