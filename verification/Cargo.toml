[package]
name = "hyprdock"
version = "0.2.1"
edition = "2021"
publish = false

[dependencies]
home = "*"
serde = "*"
serde_derive = "*"
toml = "*"
