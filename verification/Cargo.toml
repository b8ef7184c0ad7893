[package]
name = "cpamm"
version = "0.1.0"
edition = "2021"
publish = false

[dependencies]
solana-pubkey = "=2.4.0"
spl-associated-token-account-client = "=2.0.0"
