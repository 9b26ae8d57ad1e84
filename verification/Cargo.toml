[package]
name = "sb_harness"
version = "0.1.0"
edition = "2021"
publish = false

[dependencies]
anyhow = "1"
chrono = "0.4"
clap = { version = "4", features = ["derive"] }
futures = "0.3"
heapless = "0.8"
sha2 = "0.10"
wasmtime = { version = "24", default-features = false, features = ["async", "component-model", "cranelift", "runtime", "std"] }
wit-bindgen = "0.30"

[dev-dependencies]
wat = "=1.215.0"
