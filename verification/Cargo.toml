[package]
name = "nestadia"
version = "0.1.0"
edition = "2021"
publish = false

[dependencies]
argon2 = "0.5"
blake3 = { version = "1", features = ["pure"] }
flate2 = "1"
