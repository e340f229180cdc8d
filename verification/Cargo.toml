[package]
name = "epplex"
version = "0.1.0"
edition = "2021"
publish = false

[dependencies]
anchor-lang = "0.30.1"
anchor-spl = "0.30.1"
spl-token-2022 = "3"
spl-token-metadata-interface = "0.3"
solana-program = "1.18"
