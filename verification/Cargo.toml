[package]
name = "resmoke_colors"
version = "0.1.0"
edition = "2021"
publish = false

[dependencies]
regex = "1"
colored = "*"
lazy-regex = "*"
lazy_static = "1"
