[package]
name = "cbound"
version = "0.1.0"
edition = "2021"
publish = false

[dependencies]
memchr = "=2.8.3"
serde = "=1.0.229"
serde_json = "=1.0.151"
