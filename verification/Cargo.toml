[package]
name = "marketplace"
version = "0.1.0"
edition = "2021"
publish = false

[dependencies]
solana-sdk = "2"
sha2 = "0.10"
serde = { version = "1", features = ["derive"] }
serde_json = "1"
ureq = { version = "2", default-features = false }
base64 = "0.22"
