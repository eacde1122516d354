[package]
name = "multihash"
version = "0.1.0"
edition = "2021"
publish = false

[dependencies]
sha1 = "0.6"
sha2 = "0.8"
tiny-keccak = "1.5"
