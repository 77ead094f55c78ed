[package]
name = "dataprism_core"
version = "0.1.0"
edition = "2021"
publish = false

[dependencies]
console_error_panic_hook = "*"
js-sys = "*"
serde = { version = "*", features = ["derive"] }
serde_json = "*"
serde-wasm-bindgen = "*"
wasm-bindgen = "*"
wasm-bindgen-futures = "*"
web-sys = { version = "*", features = ["console", "Window", "Navigator", "Performance"] }
