[package]
name = "wowgo"
version = "0.1.0"
edition = "2021"
publish = false

[dependencies]
anchor-lang = "=1.2.1"
anchor-spl = "=1.2.1"
solana-program = "=5.1.0"
solana-pubkey = { version = "=4.4.0", features = ["curve25519"] }
spl-token = "=9.0.0"
