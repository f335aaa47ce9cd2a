[package]
name = "rcli"
version = "0.1.0"
edition = "2021"
publish = false

[dependencies]
anyhow = "1"
base64 = "0.22"
blake3 = "1"
chacha20poly1305 = "*"
clap = { version = "4", features = ["derive"] }
csv = "1"
ed25519-dalek = { version = "*", features = ["rand_core"] }
rand = "*"
serde = { version = "1", features = ["derive"] }
serde_json = "1"
serde_yaml = "0.9"
zxcvbn = "*"
