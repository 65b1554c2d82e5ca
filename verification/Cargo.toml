[package]
name = "ix_service"
version = "0.1.0"
edition = "2021"
publish = false

[dependencies]
actix-web = "4"
base64 = "0.22"
bs58 = "0.5"
serde = { version = "1", features = ["derive"] }
solana-sdk = "*"
solana-system-interface = { version = "*", features = ["bincode"] }
spl-token = "*"
