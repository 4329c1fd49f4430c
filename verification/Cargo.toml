[package]
name = "cctp_forwarder"
version = "0.1.0"
edition = "2021"
publish = false

[dependencies]
soroban-sdk = { version = "=29.0.1", features = ["hazmat-address"] }
stellar-strkey = "=0.0.13"
