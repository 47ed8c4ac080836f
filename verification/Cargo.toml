[package]
name = "salsa20"
version = "0.1.0"
edition = "2021"
publish = false

[dependencies]
cipher = "0.4"

[dev-dependencies]
hex = "0.4"
