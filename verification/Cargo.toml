[package]
name = "dpc_core"
version = "0.1.0"
edition = "2021"
publish = false

[dependencies]
anyhow = "1"
nom = "7"
num-traits = "0.2"
rand = "0.8"
rayon = "1"
snarkvm-algorithms = "*"
snarkvm-console-account = "*"
snarkvm-console-network = "*"
snarkvm-curves = "*"
snarkvm-fields = "*"
snarkvm-utilities = "*"

[dev-dependencies]
rand_chacha = "0.3"
