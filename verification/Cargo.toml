[package]
name = "opentelemetry-lambda-extension"
version = "0.1.0"
edition = "2021"
publish = false

[dependencies]
async-trait = "*"
lambda-extension = "*"
opentelemetry = "*"
opentelemetry-proto = { version = "*", features = ["gen-tonic", "logs", "metrics", "trace", "with-serde"] }
serde = { version = "*", features = ["derive"] }
serde_json = "*"
thiserror = "*"
tokio = { version = "*", features = ["macros", "rt-multi-thread", "sync"] }
tokio-util = "*"
tonic = "*"
