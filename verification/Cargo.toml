[package]
name = "time_capsule"
version = "0.1.0"
edition = "2021"
publish = false

[dependencies]
anchor-lang = "=0.32.2"
solana-security-txt = "=1.1.3"
