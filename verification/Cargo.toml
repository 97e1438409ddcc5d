[package]
name = "zk_roulette"
version = "0.1.0"
edition = "2021"
publish = false

[dependencies]
soroban-sdk = { version = "=28.0.0", features = ["hazmat-address", "testutils"] }
soroban-poseidon = "=28.0.0"
soroban-env-host = "=28.0.2"
