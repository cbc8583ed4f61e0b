[package]
name = "market"
version = "0.1.0"
edition = "2021"
publish = false

[dependencies]
cosmwasm-std = "=1.5.11"
cw20 = "0.13"
terraswap = "=2.9.0"
protobuf = "=2.28.0"
schemars = "=0.8.22"
serde = { version = "=1.0.229", features = ["derive"] }
