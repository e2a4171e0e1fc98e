[package]
name = "trust_fabric"
version = "0.1.0"
edition = "2021"
publish = false

[dependencies]
sha2 = "=0.11.0"
chrono = "=0.4.45"
crystals-dilithium = "*"
pqcrypto-dilithium = "*"
pqcrypto-traits = "*"
serde = { version = "=1.0.229", features = ["derive"] }
serde_json = "=1.0.151"
