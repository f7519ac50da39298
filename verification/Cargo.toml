[package]
name = "ledger_dispatch"
version = "0.1.0"
edition = "2021"
publish = false

[dependencies]
solana-sdk = { version = "=2.3.1", default-features = false, features = ["full"] }
bincode = "=1.3.3"
futures = "0.3"
serde = { version = "1", features = ["derive"] }
serde_yaml = "0.9"
tokio = { version = "1", features = ["full"] }
tokio-stream = "0.1"
