[package]
name = "kuwo_crypto"
version = "0.1.0"
edition = "2021"
publish = false

[dependencies]
tc_tea = "*"
base64 = "*"
