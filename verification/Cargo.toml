[package]
name = "step_staking"
version = "0.1.0"
edition = "2021"
publish = false

[dependencies]
base64 = "0.21"
bincode = "1.3.3"
serde = { version = "1", features = ["derive"] }
sha2 = "0.10"
solana-sdk = "1.18"
spl-associated-token-account = "3"
spl-token = "4"
