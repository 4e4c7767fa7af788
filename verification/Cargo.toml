[package]
name = "ucs01_relay_api"
version = "0.1.0"
edition = "2021"
publish = false

[dependencies]
cosmwasm-std = { version = "2", features = ["stargate"] }
cw-controllers = "2"
serde = { version = "1", features = ["derive"] }
serde-json-wasm = "1"
thiserror = "1"
