[package]
name = "tpch_polars"
version = "0.1.0"
edition = "2021"
publish = false

[dependencies]
polars = { version = "0.26", default-features = false }
polars-arrow = { version = "0.26", default-features = false }
pyo3 = { version = "0.18", default-features = false, features = ["macros", "extension-module", "abi3-py37"] }
env_logger = "0.10"
log = "0.4"
