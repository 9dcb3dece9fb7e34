[package]
name = "conv"
version = "0.1.0"
edition = "2021"
publish = false

[dependencies]
ieee754 = "0.2"
