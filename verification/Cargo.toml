[package]
name = "ledger_orchestration"
version = "0.1.0"
edition = "2021"
publish = false

[dependencies]
futures = "0.3"
serde = { version = "1", features = ["derive"] }
serde_yaml = "0.9"
solana-sdk = { version = "2.3", default-features = false, features = ["full"] }
tokio = { version = "1", features = ["macros", "rt-multi-thread"] }
