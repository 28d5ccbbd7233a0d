[package]
name = "athena"
version = "0.1.0"
edition = "2021"
publish = false

[dependencies]
zksnark = "*"
rand = "0.7"
serde = "1"
serde_derive = "1"
serde_json = "1"
itertools = "*"
tiny-keccak = "*"
log = "*"
