[package]
name = "hca_wav"
version = "0.1.0"
edition = "2021"
publish = false

[dependencies]
hound = "3.5"
wasm-bindgen = "0.2"
