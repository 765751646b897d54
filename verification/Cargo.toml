[package]
name = "memecoins_sdk"
version = "0.1.0"
edition = "2021"
publish = false

[dependencies]
anyhow = "1"
dotenv = "0.15"
fuels = "0.66"
rand = "0.8"
tokio = { version = "1", features = ["rt-multi-thread", "macros"] }
