[package]
name = "solana_pool"
version = "0.1.0"
edition = "2021"
publish = false

[dependencies]
az = "1"
fixed = "1"
