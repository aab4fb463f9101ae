[package]
name = "loro-core"
version = "0.1.0"
edition = "2021"
publish = false

[dependencies]
wasm-bindgen = "0.2"
tracing-wasm = "0.2"
