[package]
name = "cw_ibc_proxy"
version = "0.1.0"
edition = "2021"
publish = false

[dependencies]
cosmwasm-std = { version = "2", features = ["cosmwasm_2_0"] }
cosmwasm-schema = "2"
cw2 = "2"
cw-storage-plus = "2"
osmosis-std = "*"
thiserror = "1"
