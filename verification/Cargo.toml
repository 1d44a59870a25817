[package]
name = "poseidon_ffi"
version = "0.1.0"
edition = "2021"
publish = false

[dependencies]
ark-bn254 = "0.4"
ark-ff = "0.4"
light-poseidon = "0.2"
serde_json = "1"
cty = "0.2"
