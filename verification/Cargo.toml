[package]
name = "universal_game"
version = "0.1.0"
edition = "2021"
publish = false

[dependencies]
solana-sha256-hasher = "=2.3.0"
solana-keccak-hasher = "=2.2.1"
