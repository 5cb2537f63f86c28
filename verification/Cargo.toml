[package]
name = "smart_account"
version = "0.1.0"
edition = "2021"
publish = false

[dependencies]
anchor-lang = "0.31.1"
solana-sdk = { version = "2", default-features = false }
solana-security-txt = "1"
serde = { version = "1", features = ["derive"] }
anyhow = "1"
