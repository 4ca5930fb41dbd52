[package]
name = "transfer_entry"
version = "0.1.0"
edition = "2021"
publish = false

[dependencies]
xrpl-wasm-stdlib = "=0.8.0"
