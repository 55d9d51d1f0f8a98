[package]
name = "ring_vrf"
version = "0.1.0"
edition = "2021"
publish = false

[dependencies]
bellman = "0.14"
bls12_381 = "0.8"
ff = "0.13"
group = "0.13"
jubjub = "0.10"
merlin = "3"
pairing = "0.23"
rand_chacha = "0.3"
rand_core = { version = "0.6", features = ["getrandom"] }
