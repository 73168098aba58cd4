[package]
name = "nurbs_kernel"
version = "0.1.0"
edition = "2021"
publish = false

[dependencies]
rustc_apfloat = "0.2"
wasm-bindgen = "0.2"
console_error_panic_hook = "0.1"
dlmalloc = { version = "0.2", features = ["global"] }
