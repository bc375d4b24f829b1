[package]
name = "tron_vanity"
version = "0.1.0"
edition = "2021"
publish = false

[dependencies]
bs58 = "*"
clap = { version = "*", features = ["derive"] }
hex = "*"
num_cpus = "*"
rand = "*"
rayon = "*"
secp256k1 = "*"
sha2 = "*"
sha3 = "*"
