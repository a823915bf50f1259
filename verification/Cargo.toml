[package]
name = "faucet"
version = "0.1.0"
edition = "2021"
publish = false

[dependencies]
anchor-lang = "=1.2.1"
ink_env = "=3.4.0"
ink_lang = "=3.4.0"
ink_prelude = "=3.4.0"
ink_storage = "=3.4.0"
parity-scale-codec = "=3.7.5"
