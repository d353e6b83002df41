[package]
name = "operator_host"
version = "0.1.0"
edition = "2021"
publish = false

[dependencies]
pyo3 = "0.18"
flume = "0.10"
tokio = { version = "1", features = ["sync", "rt"] }
