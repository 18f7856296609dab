[package]
name = "zaplink"
version = "0.1.0"
edition = "2021"
publish = false

[dependencies]
copypasta = "*"
regex = "1"
serde_json = "1"
