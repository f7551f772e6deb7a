[package]
name = "ed25519_signer"
version = "0.1.0"
edition = "2021"
publish = false

[dependencies]
ed25519-dalek = "1"
rand = "0.7"
clap = "2"
log = "0.4"
env_logger = "0.9"
