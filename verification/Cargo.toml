[package]
name = "regex_pool"
version = "0.1.0"
edition = "2021"
publish = false

[dependencies]
hashbrown = "*"
lazy_static = "1"
regex = "1"
