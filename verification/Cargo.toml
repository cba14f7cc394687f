[package]
name = "persistence"
version = "0.1.0"
edition = "2021"
publish = false

[dependencies]
rocksdb = { version = "*", default-features = false }
chrono = "*"
serde = { version = "*", features = ["derive"] }
serde_cbor = "*"
url = "*"
