[package]
name = "stablecoin_factory"
version = "0.1.0"
edition = "2021"
publish = false

[dependencies]
anchor-lang = "=1.2.1"
anchor-spl = { version = "=1.2.1", default-features = false, features = ["mint", "token", "solana-v3"] }
switchboard-on-demand = "=0.13.0"
