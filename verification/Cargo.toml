[package]
name = "aes_circuit"
version = "0.1.0"
edition = "2021"
publish = false

[dependencies]
anyhow = "=1.0.104"
ark-bls12-381 = "0.3"
ark-ff = "0.3"
ark-marlin = "0.3"
ark-poly = "0.3"
ark-poly-commit = "0.3"
ark-r1cs-std = "=0.3.1"
ark-relations = "=0.3.0"
ark-std = "0.3"
blake2 = "0.9"
rand = "0.8"
