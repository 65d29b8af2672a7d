[package]
name = "threshold_signature"
version = "0.1.0"
edition = "2021"
publish = false

[dependencies]
frost-secp256k1 = "*"
frost-core = "*"
rand = "0.8"
rand_chacha = "0.3"
