[package]
name = "raestro"
version = "0.5.0"
edition = "2021"
publish = false

[dependencies]
derive_more = "0.99"
rppal = "*"
