[package]
name = "mock_querier"
version = "0.1.0"
edition = "2021"
publish = false

[dependencies]
cosmwasm-std = { version = "=0.16.7", features = ["staking"] }
cw20 = "=0.8.1"
cw20-base = { version = "=0.8.1", features = ["library"] }

[dev-dependencies]
cosmwasm-storage = "=0.16.7"
