[package]
name = "fort_rs"
version = "0.1.0"
edition = "2021"
publish = false

[dependencies]
scrypt = { version = "*", default-features = false }
hmac = "*"
sha2 = "*"
sha3 = "*"
serde = { version = "*", features = ["derive"] }
serde_json = "*"
clap = { version = "*", features = ["derive"] }
anyhow = "*"
