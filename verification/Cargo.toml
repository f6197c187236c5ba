[package]
name = "dd_trace_layer"
version = "0.1.0"
edition = "2021"
publish = false

[dependencies]
http = "=1.5.0"
http-body = "=1.1.0"
futures = "=0.3.34"
tower = "=0.5.3"
opentelemetry = "=0.32.0"
opentelemetry_sdk = "=0.32.1"
opentelemetry-datadog = { version = "=0.20.1", features = ["reqwest-blocking-client"] }
opentelemetry-semantic-conventions = "=0.32.1"
