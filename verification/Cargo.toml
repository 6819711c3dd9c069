[package]
name = "otel_pipeline"
version = "0.1.0"
edition = "2021"
publish = false

[dependencies]
futures-channel = "0.3"
futures-executor = "0.3"
futures-util = "0.3"
opentelemetry = "0.27"
