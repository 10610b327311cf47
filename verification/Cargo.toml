[package]
name = "trustchain"
version = "0.1.0"
edition = "2021"
publish = false

[dependencies]
ssi = "0.4"
did-ion = "0.1"
serde_json = "1"
amcl_wrapper = "*"
