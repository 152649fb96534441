[package]
name = "rangeproof"
version = "0.1.0"
edition = "2021"
publish = false

[dependencies]
bulletproofs = "=4.0.0"
curve25519-dalek-ng = "=4.1.1"
merlin = "=3.0.0"
rand = "=0.8.8"
safer-ffi = "=0.1.13"
