[package]
name = "evm_arithmetization"
version = "0.1.0"
edition = "2021"
publish = false

[dependencies]
serde = { version = "=1.0.229", features = ["derive"] }
ethereum-types = "=0.16.0"
