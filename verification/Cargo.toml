[package]
name = "kex_aead"
version = "0.1.0"
edition = "2021"
publish = false

[dependencies]
curve25519-dalek = "4"
merlin = "3"
rand = "0.8"
aes-gcm = "0.10"
