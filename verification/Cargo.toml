[package]
name = "timelock"
version = "0.1.0"
edition = "2021"
publish = false

[dependencies]
ark-bls12-381 = "0.5"
ark-ec = "0.5"
ark-ff = "0.5"
ark-serialize = "0.5"
ark-std = "0.5"
sha2 = "0.10"
sha3 = "0.10"
aes-gcm = "0.10"
rand = "0.8"
hex = "0.4"
