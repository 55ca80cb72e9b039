[package]
name = "wasm_typestack"
version = "0.1.0"
edition = "2021"
publish = false

[dependencies]
wasmparser = "*"
anyhow = "1"
