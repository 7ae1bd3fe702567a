[package]
name = "kernel_dispatch"
version = "0.1.0"
edition = "2021"
publish = false

[dependencies]
metal = "*"
pyo3 = "*"
