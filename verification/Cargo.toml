[package]
name = "burn_txn"
version = "0.1.0"
edition = "2021"
publish = false

[dependencies]
ed25519-dalek = "2"
helium-api = "*"
serde_json = "1"
tokio = { version = "1", features = ["macros", "rt-multi-thread"] }
