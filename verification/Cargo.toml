[package]
name = "password_cmp"
version = "0.1.0"
edition = "2021"
publish = false

[dependencies]
zeroize = "*"

[dev-dependencies]
rand = "*"
