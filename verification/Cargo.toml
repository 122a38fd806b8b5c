[package]
name = "surfpool_bundle"
version = "0.1.0"
edition = "2021"
publish = false

[dependencies]
bs58 = "0.5"
base64 = "0.22"
sha2 = "0.10"
hex = "0.4"
jsonrpc-core = "18.0"
