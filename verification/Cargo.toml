[package]
name = "cpi_runtime"
version = "0.1.0"
edition = "2021"
publish = false

[dependencies]
solana-pubkey = { version = "=4.4.0", features = ["curve25519"] }
