[package]
name = "python_embed"
version = "0.1.0"
edition = "2021"
publish = false

[dependencies]
pyo3 = { version = "=0.22.6", features = ["auto-initialize"] }
once_cell = "=1.21.4"
