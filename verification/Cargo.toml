[package]
name = "token_closer"
version = "0.1.0"
edition = "2021"
publish = false

[dependencies]
anyhow = "1"
bs58 = "0.4"
clap = { version = "4", features = ["derive"] }
solana-cli-config = "1.18"
solana-sdk = "1.18"
spl-associated-token-account = "2"
spl-token = "4"
