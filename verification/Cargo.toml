[package]
name = "wasmvm"
version = "0.1.0"
edition = "2021"
publish = false

[dependencies]
cosmwasm-std = "=3.0.10"
cosmwasm-vm = "=3.0.10"
