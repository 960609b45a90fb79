[package]
name = "wallet_balances"
version = "0.1.0"
edition = "2021"
publish = false

[dependencies]
anyhow = "=1.0.104"
futures = "=0.3.34"
serde = { version = "=1.0.229", features = ["derive"] }
serde_yaml = "=0.9.34"
solana-rpc-client = { version = "2.3", default-features = false }
solana-sdk = { version = "=2.3.1", default-features = false }
tokio = { version = "=1.54.1", features = ["macros", "rt-multi-thread"] }
