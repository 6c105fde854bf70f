[package]
name = "plasma_cash"
version = "0.1.0"
edition = "2021"
publish = false

[dependencies]
schnorrkel = "*"
blake2b_simd = "*"

[dev-dependencies]
rand_core = "0.6"
