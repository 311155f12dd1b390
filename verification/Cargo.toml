[package]
name = "feedback"
version = "0.1.0"
edition = "2021"
publish = false

[dependencies]
futures-lite = "2"
pyo3 = "0.23"
thiserror = "1"
tokio = { version = "1", features = ["net"] }
tracing = "0.1"
