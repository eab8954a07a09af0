[package]
name = "psol"
version = "0.1.0"
edition = "2021"
publish = false

[dependencies]
sha2 = "0.10"
solana-program = "1.17"
anchor-lang = "0.29.0"
anchor-spl = "0.29.0"
borsh = "0.10"
spl-token = "4"
