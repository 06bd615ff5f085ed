[package]
name = "python_file_finder"
version = "0.1.0"
edition = "2021"
publish = false

[dependencies]
ignore = "0.4"
path-slash = "0.2"
pyo3 = { version = "0.20", features = ["abi3-py38"] }
regex = "1"
