[package]
name = "pda_vault"
version = "0.1.0"
edition = "2021"
publish = false

[dependencies]
solana-program = "=1.18.26"
solana-sdk = "=1.18.26"
