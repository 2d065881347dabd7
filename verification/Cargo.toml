[package]
name = "variable_to_wasm_import"
version = "0.1.0"
edition = "2021"
publish = false

[dependencies]
argon2 = { version = "=0.5.3", features = ["std"] }
swc_core = { version = "*", features = ["ecma_plugin_transform"] }
wasm-bindgen = "=0.2.129"
