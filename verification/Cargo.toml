[package]
name = "next_externals"
version = "0.1.0"
edition = "2021"
publish = false

[dependencies]
regex = "*"
