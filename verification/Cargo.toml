[package]
name = "koharu"
version = "0.1.0"
edition = "2021"
publish = false

[dependencies]
indexmap = { version = "=2.14.2", features = ["serde"] }
uuid = { version = "=1.29.0", features = ["v4", "v7", "serde"] }
chrono = { version = "=0.4.45", features = ["serde"] }
blake3 = "=1.8.7"
sha2 = "=0.10.9"
serde = { version = "=1.0.229", features = ["derive"] }
serde_json = "=1.0.154"
camino = "=1.2.6"
anyhow = "=1.0.104"
axum = { version = "=0.8.9", default-features = false }
clap = { version = "=4.6.7", features = ["derive"] }
