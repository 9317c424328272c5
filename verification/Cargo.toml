[package]
name = "mint_setup"
version = "0.1.0"
edition = "2021"
publish = false

[dependencies]
pinocchio = "*"
pinocchio-system = "*"
solana-program = "*"
spl-token = "*"

[dev-dependencies]
borsh = "*"
