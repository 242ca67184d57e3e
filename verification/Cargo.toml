[package]
name = "rainbow_dao"
version = "0.1.0"
edition = "2021"
publish = false

[dependencies]
ink_env = "3"
parity-scale-codec = { version = "3", default-features = false, features = ["derive"] }
near-sdk = { version = "4.1", default-features = false }
