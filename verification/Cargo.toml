[package]
name = "solana_escrow"
version = "0.1.0"
edition = "2021"
publish = false

[dependencies]
solana-program = "=2.1.21"
spl-token = { version = "=7.0.0", default-features = false, features = ["no-entrypoint"] }
