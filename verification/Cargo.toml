[package]
name = "solana_gateway"
version = "0.1.0"
edition = "2021"
publish = false

[dependencies]
solana-sdk = "=5.0.0"
spl-token = "=9.0.0"
solana-system-interface = { version = "=3.3.0", features = ["bincode"] }
base64 = "=0.23.1"
bs58 = "=0.5.1"
serde = { version = "=1.0.229", features = ["derive"] }
axum = "=0.8.9"
tokio = { version = "=1.53.2", features = ["macros", "rt-multi-thread", "net"] }
