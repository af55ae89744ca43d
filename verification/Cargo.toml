[package]
name = "span_collect"
version = "0.1.0"
edition = "2021"
publish = false

[dependencies]
minitrace = { version = "=0.6.7", features = ["enable"] }
worker = "=0.8.7"
wasm-bindgen = "=0.2.129"
console_error_panic_hook = "=0.1.7"
