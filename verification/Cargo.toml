[package]
name = "payment_forwarder"
version = "0.1.0"
edition = "2021"
publish = false

[dependencies]
cosmwasm-std = "0.10"
schemars = "0.7"
serde = { version = "1.0", default-features = false, features = ["derive"] }
