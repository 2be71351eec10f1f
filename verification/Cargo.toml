[package]
name = "ocw_demo"
version = "0.1.0"
edition = "2021"
publish = false

[dependencies]
serde = { version = "*", features = ["derive"] }
serde_json = "*"
parity-scale-codec = "*"
ed25519-dalek = "*"
