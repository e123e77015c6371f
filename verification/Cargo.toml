[package]
name = "liquidation_engine"
version = "0.1.0"
edition = "2021"
publish = false

[dependencies]
bytemuck = "=1.25.2"
pyth-sdk-solana = "=0.10.6"
anchor-lang = "=0.29.0"
anchor-spl = "=0.29.0"
