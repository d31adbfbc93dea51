[package]
name = "wasm_crimes"
version = "0.1.0"
edition = "2021"
publish = false

[dependencies]
wasmtime = "=48.0.5"
wasmtime-wasi = "=48.0.5"
tokio = { version = "=1.53.2", features = ["macros", "rt-multi-thread", "sync"] }
thiserror = "=2.0.21"
