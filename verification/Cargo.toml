[package]
name = "dprint-plugin-bibtex-tidy"
version = "0.1.0"
edition = "2021"
publish = false

[dependencies]
dprint-core = { version = "=0.75.0", features = ["wasm"] }
serde = { version = "=1.0.229", features = ["derive"] }
serde_json = "=1.0.154"
boa_engine = "=0.22.0"
getrandom = "=0.4.3"
