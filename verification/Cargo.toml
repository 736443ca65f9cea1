[package]
name = "parsec_core"
version = "0.1.0"
edition = "2021"
publish = false

[dependencies]
pkcs11 = "*"
rand = "*"
uuid = "*"
