[package]
name = "qtum_faucet"
version = "0.1.0"
edition = "2021"
publish = false

[dependencies]
cosmwasm-schema = "=2.3.5"
cosmwasm-std = "=2.3.5"
cw2 = "=2.0.0"
cw20 = "=2.0.0"
cw-storage-plus = "=2.0.0"
