[package]
name = "ctv_template"
version = "0.1.0"
edition = "2021"
publish = false

[dependencies]
bip119 = "*"
bitcoin = { version = "0.32", features = ["rand-std"] }
