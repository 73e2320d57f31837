[package]
name = "matrix_system"
version = "0.1.0"
edition = "2021"
publish = false

[dependencies]
solana-program = "=2.3.0"
anchor-lang = "=1.2.1"
anchor-spl = "=1.2.1"
spl-token = "=9.0.0"
chainlink_solana = "=2.0.8"
