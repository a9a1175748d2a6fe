[package]
name = "lottery_token"
version = "0.1.0"
edition = "2021"
publish = false

[dependencies]
stylus-sdk = { version = "=0.9.0", features = ["stylus-test"] }
openzeppelin-stylus = "=0.3.0"
ruint = ">=1.12.3, <1.15"
alloy-sol-types = "=0.8.20"
alloy-primitives = "=0.8.20"
