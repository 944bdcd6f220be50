[package]
name = "swap"
version = "0.1.0"
edition = "2021"
publish = false

[dependencies]
monero = "=0.22.0"
curve25519-dalek = "=5.0.0"
anyhow = "1"
futures = "0.3"
tokio = { version = "1", features = ["rt-multi-thread", "macros"] }
structopt = "0.3"
