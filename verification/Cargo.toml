[package]
name = "subgroup_check"
version = "0.1.0"
edition = "2021"
publish = false

[dependencies]
curve25519-dalek = { version = "4", features = ["rand_core"] }
subtle = "2"

[dev-dependencies]
rand = "0.8"
