[package]
name = "escrow_auction"
version = "0.1.0"
edition = "2021"
publish = false

[dependencies]
chrono = { version = "0.4", default-features = false, features = ["std"] }
schemars = "0.7"
secret-cosmwasm-std = "0.10"
secret-toolkit = "0.2"
serde = { version = "1.0", default-features = false, features = ["derive"] }
serde_json = "1.0"
serde-json-wasm = "0.2"
