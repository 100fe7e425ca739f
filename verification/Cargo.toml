[package]
name = "wormhole_bridge"
version = "0.1.0"
edition = "2021"
publish = false

[dependencies]
num-traits = "*"
sha3 = "*"
solana-sdk = { version = "*", default-features = false }
spl-token = "*"
