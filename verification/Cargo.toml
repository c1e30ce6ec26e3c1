[package]
name = "wasmlib"
version = "0.1.0"
edition = "2021"
publish = false

[dependencies]
anyhow = "=1.0.104"
wasmi = "=2.0.0"
rustpython-vm = "=0.4.0"
