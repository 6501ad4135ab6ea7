[package]
name = "deal_contract"
version = "0.1.0"
edition = "2021"
publish = false

[dependencies]
anchor-lang = { version = "0.28.0", features = ["init-if-needed"] }
anchor-spl = { version = "0.28.0" }
solana-program = { version = "1.16" }
spl-associated-token-account = { version = "1.1", features = ["no-entrypoint"] }
