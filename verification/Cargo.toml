[package]
name = "toml-comment"
version = "0.1.0"
edition = "2021"
publish = false

[dependencies]
toml = "0.8"
serde = "1"
syn = "2"
quote = "1"
proc-macro2 = "1"
