[package]
name = "bunnybattle_solana"
version = "0.1.0"
edition = "2021"
publish = false

[dependencies]
groth16-solana = "*"
ark-bn254 = "*"
ark-serialize = "*"
