[package]
name = "poem_metrics"
version = "0.1.0"
edition = "2021"
publish = false

[dependencies]
metrics = "=0.24.6"
poem = "=3.1.12"

[dev-dependencies]
metrics-util = "=0.20.4"
