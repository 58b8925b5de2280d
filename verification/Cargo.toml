[package]
name = "lasagna"
version = "0.1.0"
edition = "2021"
publish = false

[dependencies]
snailquote = "0.3"
