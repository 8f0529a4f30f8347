[package]
name = "jane-eyre"
version = "0.1.0"
edition = "2021"
publish = false

[dependencies]
eyre = "=0.3.10"
indenter = "=0.1.3"
tracing-error = "=0.1.2"

[dev-dependencies]
tracing = "0.1"
tracing-subscriber = { version = "0.2", default-features = false, features = ["registry"] }
