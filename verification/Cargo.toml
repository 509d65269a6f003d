[package]
name = "linreg_verifier"
version = "0.1.0"
edition = "2021"
publish = false

[dependencies]
winterfell = "*"
bincode = "1.3"
polkavm-derive = "*"
pallet-revive-uapi = "*"
