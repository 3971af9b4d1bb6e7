[package]
name = "appseed_cli"
version = "0.1.0"
edition = "2021"
publish = false

[dependencies]
colored = "2"
dialoguer = { version = "0.11", default-features = false }
indicatif = "0.17"
