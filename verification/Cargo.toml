[package]
name = "vortex"
version = "0.1.0"
edition = "2021"
publish = false

[dependencies]
ark-bn254 = "0.5"
ark-ff = "0.5"
ark-r1cs-std = "0.5"
ark-relations = "0.5"
ark-serialize = "0.5"
ark-groth16 = "0.5"
ark-crypto-primitives = "0.5"
hex = "0.4"
num-bigint = "0.4"
num-traits = "0.2"
rand_chacha = "0.3"
rand_core = "0.6"
serde = { version = "1", features = ["derive"] }
serde_json = "1"
anyhow = "1"
thiserror = "1"
log = "0.4"
lazy_static = "1"
