[package]
name = "contract_bench"
version = "0.1.0"
edition = "2021"
publish = false

[dependencies]
parity-wasm = "=0.41.0"
sp-runtime = "=2.0.1"
sp-std = "=2.0.1"
frame-system = "=2.0.1"
frame-benchmarking = "=2.0.1"
substrate-bip39 = "=0.4.2"
syn = "=1.0.58"
