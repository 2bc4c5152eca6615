[package]
name = "dprint_plugin_stylua"
version = "0.1.0"
edition = "2021"
publish = false

[dependencies]
anyhow = "=1.0.104"
dprint-core = { version = "=0.70.0", features = ["wasm"] }
serde = { version = "1", features = ["derive"] }
stylua = "=2.5.2"
