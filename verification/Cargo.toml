[package]
name = "beth"
version = "0.1.0"
edition = "2021"
publish = false

[dependencies]
cosmwasm-std = "1.5"
cw20 = "1.1"
cw20-base = { version = "1.1", features = ["library"] }
cw-utils = "1.0"
serde = { version = "1.0", features = ["derive"] }
schemars = "0.8"
