[package]
name = "score_ledger"
version = "0.1.0"
edition = "2021"
publish = false

[dependencies]
cosmwasm-std = "0.16"
cw-storage-plus = "0.8"
cw2 = "0.8"
schemars = "0.8"
serde = { version = "1", default-features = false, features = ["derive"] }
serde_json = "1"
