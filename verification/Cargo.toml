[package]
name = "wasi_pipes"
version = "0.1.0"
edition = "2021"
publish = false

[dependencies]
wasmtime = "=46.0.3"
wasi-common = "=46.0.3"
