[package]
name = "bandersnatch_vrfs"
version = "0.1.0"
edition = "2021"
publish = false

[dependencies]
ark-ec = "0.4"
ark-ed-on-bls12-381-bandersnatch = "0.4"
ark-ff = "0.4"
ark-serialize = { version = "0.4", features = ["derive"] }
ark-std = "0.4"
merlin = "3"
rand_core = { version = "0.6", features = ["getrandom"] }
