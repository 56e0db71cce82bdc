[package]
name = "rating_system_contract"
version = "0.1.0"
edition = "2021"
publish = false

[dependencies]
soroban-sdk = "*"
