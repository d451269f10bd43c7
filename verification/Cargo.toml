[package]
name = "chip_8_emu"
version = "0.1.0"
edition = "2021"
publish = false

[dependencies]
js-sys = "0.3"
wasm-bindgen = "0.2"
wee_alloc = "0.4"
