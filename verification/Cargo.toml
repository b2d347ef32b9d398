[package]
name = "read_quran"
version = "0.1.0"
edition = "2021"
publish = false

[dependencies]
json = "0.12"
rand = "0.8"
wasm-bindgen = "0.2"
js-sys = "0.3"
