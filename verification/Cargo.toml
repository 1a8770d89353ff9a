[package]
name = "buy_me_a_coffee"
version = "0.1.0"
edition = "2021"
publish = false

[dependencies]
soroban-sdk = { version = "=29.0.1", features = ["hazmat-address"] }

[dev-dependencies]
soroban-sdk = { version = "=29.0.1", features = ["hazmat-address", "testutils"] }
