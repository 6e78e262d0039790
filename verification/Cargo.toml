[package]
name = "token_manager"
version = "0.1.0"
edition = "2021"
publish = false

[dependencies]
anchor-lang = "=1.2.1"
anchor-spl = { version = "=1.2.1", default-features = false, features = ["solana-v3", "token", "token_2022"] }
solana-pubkey = { version = "=3.0.0", features = ["curve25519"] }
