[package]
name = "bond_orderbook"
version = "0.1.0"
edition = "2021"
publish = false

[dependencies]
solana-sdk = "=1.18.26"
bytemuck = { version = "*", features = ["derive"] }
serde = { version = "*", features = ["derive"] }
serde_json = "*"
serde_with = "*"
toml = "*"
anyhow = "*"
