[package]
name = "marl_engine_native"
version = "0.1.0"
edition = "2021"
publish = false

[dependencies]
rand = "=0.8.8"
rand_chacha = "=0.3.1"
serde = { version = "=1.0.229", features = ["derive"] }
serde_json = "=1.0.154"
thiserror = "=1.0.69"
xxhash-rust = { version = "=0.8.19", features = ["xxh3"] }
pyo3 = "=0.22.6"
numpy = "=0.22.1"
