[package]
name = "armature_opentelemetry"
version = "0.4.0"
edition = "2021"
publish = false

[dependencies]
opentelemetry = "*"
opentelemetry_sdk = "*"
opentelemetry-otlp = { version = "*", default-features = false, features = ["grpc-tonic", "trace", "metrics"] }
thiserror = "*"
