[package]
name = "cake_wallet"
version = "0.1.0"
edition = "2021"
publish = false

[dependencies]
cty = "=0.2.2"
hex = "=0.4.3"
serde_json = "=1.0.154"
