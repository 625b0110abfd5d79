[package]
name = "multi_party_eddsa"
version = "0.1.0"
edition = "2021"
publish = false

[dependencies]
curv-kzen = "=0.10.0"
curve25519-dalek = "=3.2.0"
rand = "=0.8.8"
sha2 = "=0.9.9"
serde = { version = "=1.0.229", features = ["derive"] }
