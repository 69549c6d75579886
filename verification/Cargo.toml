[package]
name = "bzod"
version = "0.6.0"
edition = "2021"
publish = false

[dependencies]
axum = "0.7"
chrono = "0.4"
hex = "0.4"
serde = { version = "1", features = ["derive"] }
serde_json = "1"
sha2 = "0.10"
tokio = { version = "1", features = ["fs"] }
uuid = { version = "1", features = ["v4"] }
