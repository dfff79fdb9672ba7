[package]
name = "refraction_rdp"
version = "0.1.0"
edition = "2021"
publish = false

[dependencies]
rust-ini = "*"
libc = "*"
