[package]
name = "lambda_runtime_client"
version = "0.1.0"
edition = "2021"
publish = false

[dependencies]
failure = "0.1"
lambda_runtime_errors = "0.1"
log = "0.4"
serde = { version = "1", features = ["derive"] }
serde_derive = "1"
