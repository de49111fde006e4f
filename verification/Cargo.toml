[package]
name = "liquidity_pool"
version = "0.1.0"
edition = "2021"
publish = false

[dependencies]
cosmwasm-std = { version = "=3.0.10", features = ["staking", "stargate", "cosmwasm_2_0"] }
cw-storage-plus = "=3.0.1"
cw2 = "=3.0.0"
serde = "=1.0.229"
thiserror = "=2.0.21"
