[package]
name = "qudag_crypto"
version = "0.1.0"
edition = "2021"
publish = false

[dependencies]
blake3 = "=1.8.7"
kem = "=0.3.0"
ml-dsa = { version = "=0.1.1", features = ["zeroize"] }
ml-kem = { version = "=0.3.2", features = ["getrandom", "zeroize"] }
