[package]
name = "trading_controller"
version = "0.1.0"
edition = "2021"
publish = false

[dependencies]
reqwest = { version = "0.11", default-features = false, features = ["json", "rustls-tls"] }
rocket = "0.5"
solana-sdk = "=1.18.26"
