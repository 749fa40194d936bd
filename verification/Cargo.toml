[package]
name = "wallet_errors"
version = "0.1.0"
edition = "2021"
rust-version = "1.95"
publish = false

[dependencies]
serde_json = "=1.0.151"
bs58 = "=0.5.1"
rand_core = "=0.6.4"
bip39 = "=3.0.0"
block-modes = "=0.8.1"
tonic = "=0.14.6"
http = "=1.5.0"
