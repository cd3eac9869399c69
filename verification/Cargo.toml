[package]
name = "lotto_engine"
version = "0.1.0"
edition = "2021"
publish = false

[dependencies]
anchor-lang = "*"
solana-security-txt = "*"
switchboard-on-demand = "*"
