[package]
name = "wasm_agent"
version = "0.1.0"
edition = "2021"
publish = false

[dependencies]
anyhow = "1"
chrono = "0.4"
clap = { version = "3", features = ["derive"] }
lazy_static = "1"
libc = "0.2"
serde = { version = "1", features = ["derive"] }
wasmtime = { version = "8", default-features = false, features = ["cranelift"] }
wasmtime-wasi = "8"
