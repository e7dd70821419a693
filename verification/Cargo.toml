[package]
name = "pyrocfl"
version = "0.1.0"
edition = "2021"
publish = false

[dependencies]
rocfl = { version = "*", default-features = false }
pyo3 = "*"
