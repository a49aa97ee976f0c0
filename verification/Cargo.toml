[package]
name = "routing"
version = "0.1.0"
edition = "2021"
publish = false

[dependencies]
cbor = "=0.4.1"
rustc-serialize = "=0.3.25"
rand = "=0.10.3"
