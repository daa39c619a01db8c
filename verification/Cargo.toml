[package]
name = "edamame_backend"
version = "0.3.4"
edition = "2021"
publish = false

[dependencies]
anyhow = "1"
blake3 = "1"
chrono = "0.4"
hex = "0.4"
hmac = "0.12"
serde = { version = "1", features = ["derive"] }
sha2 = "0.10"
