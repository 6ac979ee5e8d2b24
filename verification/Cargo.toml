[package]
name = "safesip"
version = "0.1.0"
edition = "2021"
publish = false

[dependencies]
alloy-primitives = { version = "=0.3.3", features = ["tiny-keccak"] }
mini-alloc = "=0.4.2"
ruint = "=1.10.1"
stylus-sdk = "=0.4.3"
