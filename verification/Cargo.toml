[package]
name = "openprot"
version = "0.1.0"
edition = "2021"
publish = false

[dependencies]
aligned = "=0.4.3"
ufmt = "=0.2.0"
