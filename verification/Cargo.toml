[package]
name = "poseidon_smt"
version = "0.1.0"
edition = "2021"
publish = false

[dependencies]
bincode = "=1.3.3"

[dev-dependencies]
rand = "0.8"
rand_xorshift = "0.3"
