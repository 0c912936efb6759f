[package]
name = "kilt"
version = "0.1.0"
edition = "2021"
publish = false

[dependencies]
frame-support = "*"
sp-core = "*"
sp-runtime = "*"
