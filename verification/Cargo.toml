[package]
name = "hypersign"
version = "0.1.0"
edition = "2021"
publish = false

[dependencies]
blake2 = "0.9"
ed25519-dalek = "1"
rand = "0.7"
