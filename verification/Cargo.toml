[package]
name = "funding_trading_bridge_smart_contract"
version = "1.0.0"
edition = "2021"
publish = false

[dependencies]
cosmwasm-std = "2"
cw-storage-plus = "2"
provwasm-std = "2"
schemars = "0.8"
semver = "1"
serde = { version = "1", default-features = false, features = ["derive"] }
thiserror = "1"
uuid = "1"
