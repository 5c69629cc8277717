[package]
name = "slib"
version = "0.1.0"
edition = "2021"
publish = false

[dependencies]
serde_json = "1"
serde = { version = "1", features = ["derive"] }
interprocess = "2"
checksum_dir = "*"
