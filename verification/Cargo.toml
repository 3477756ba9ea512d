[package]
name = "zstd_session"
version = "0.1.0"
edition = "2021"
publish = false

[dependencies]
zstd = "*"
wasm-bindgen = "*"
alloc_cat = "*"
