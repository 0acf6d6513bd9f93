[package]
name = "solana_wallet_gateway"
version = "0.1.0"
edition = "2021"
publish = false

[dependencies]
solana-sdk = "=1.18.26"
solana-program = "=1.18.26"
tokio = { version = "1", features = ["macros", "rt-multi-thread"] }
crossbeam = "0.8"
