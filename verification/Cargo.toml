[package]
name = "escrow"
version = "0.1.0"
edition = "2021"

[dependencies]
solana-program = "=4.1.0"
spl-token = { version = "=9.0.0", features = ["no-entrypoint"] }
