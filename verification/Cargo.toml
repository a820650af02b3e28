[package]
name = "devnet_receipts"
version = "0.1.0"
edition = "2021"
publish = false

[dependencies]
blockifier = "0.4"
starknet_api = "0.6"
starknet-core = "0.8"
serde = { version = "1", features = ["derive"] }
