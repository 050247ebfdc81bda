[package]
name = "lcmspector_backend"
version = "0.1.0"
edition = "2021"
publish = false

[dependencies]
rayon = "1"
pyo3 = { version = "0.20", features = ["extension-module"] }
