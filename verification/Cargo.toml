[package]
name = "rlib"
version = "0.1.0"
edition = "2021"
publish = false

[dependencies]
pyo3 = { version = "*", default-features = false, features = ["extension-module"] }
