[package]
name = "pyver"
version = "1.0.0"
edition = "2021"
publish = false

[dependencies]
lazy_static = "1"
regex = "=1.13.1"
serde = { version = "=1.0.229", features = ["derive"] }
