[package]
name = "solana_api"
version = "0.1.0"
edition = "2021"
publish = false

[dependencies]
axum = "=0.8.9"
base64 = "=0.22.1"
bs58 = "=0.5.1"
serde = { version = "=1.0.229", features = ["derive"] }
solana-program = "=5.1.0"
solana-sdk = "=5.0.0"
solana-system-interface = { version = "=3.3.0", features = ["bincode"] }
spl-associated-token-account = "=8.0.0"
spl-token = "=9.0.0"
tokio = { version = "=1.54.1", features = ["macros", "net", "rt-multi-thread"] }
