[package]
name = "precompile-dapps-staking"
version = "0.1.0"
edition = "2021"
publish = false

[dependencies]
parity-scale-codec = "*"
sp-core = "*"
sp-runtime = "*"
frame-support = "*"
frame-system = "*"

[dev-dependencies]
sha3 = "0.10"
