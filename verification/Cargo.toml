[package]
name = "smcu"
version = "0.1.0"
edition = "2021"
publish = false

[dependencies]
bs58 = "*"
ed25519-dalek = "2"
rand = "0.8"
serde = { version = "1", features = ["derive"] }
toml = "*"
log = "*"
