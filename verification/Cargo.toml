[package]
name = "gut"
version = "0.1.0"
edition = "2021"
publish = false

[dependencies]
cursive = "*"
cursive-syntect = "*"
syntect = "*"
