[package]
name = "a2a_codec"
version = "0.1.0"
edition = "2021"
publish = false

[dependencies]
serde = "*"
serde_json = "*"
rmp-serde = "*"
