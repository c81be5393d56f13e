[package]
name = "wrg_snake"
version = "0.1.0"
edition = "2021"
publish = false

[dependencies]
circular-queue = "=0.2.7"
lazy_static = "1.5"
wasm-bindgen = "0.2"
wasm-rgame = "=0.0.1"
wbg-rand = "=0.4.1"
