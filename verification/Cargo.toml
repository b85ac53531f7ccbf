[package]
name = "voter_credentials"
version = "0.1.0"
edition = "2021"
publish = false

[dependencies]
ring = "*"
curve25519-dalek = "*"
serde = { version = "*", features = ["derive"] }
