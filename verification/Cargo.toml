[package]
name = "mips_decode"
version = "0.1.0"
edition = "2021"
publish = false

[dev-dependencies]
quickcheck = "0.8"
rand = "0.6"
