[package]
name = "sol_bridge"
version = "0.1.0"
edition = "2021"
publish = false

[dependencies]
anchor-lang = "=0.30.1"
solana-program = "=1.18.26"

[dev-dependencies]
libsecp256k1 = "=0.6.0"
