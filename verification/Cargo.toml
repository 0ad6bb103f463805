[package]
name = "rwa"
version = "0.1.0"
edition = "2021"
publish = false

[dependencies]
anchor-lang = "0.30"
anchor-spl = "0.30"
spl-tlv-account-resolution = "0.6"
spl-transfer-hook-interface = "0.6"
