[package]
name = "tunnel"
version = "0.1.0"
edition = "2021"
publish = false

[dependencies]
console = "0.15"
sha2 = "0.10"
