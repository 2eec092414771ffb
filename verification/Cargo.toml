[package]
name = "sandwich_resistant_swap"
version = "0.1.0"
edition = "2021"
publish = false

[dependencies]
anchor-lang = "0.28"
anchor-spl = "0.28"
pyth-sdk-solana = "0.10"
