[package]
name = "application_gateway"
version = "0.1.0"
edition = "2021"
publish = false

[dependencies]
fabric-sdk = "*"
serde_json = "1"
once_cell = "1"
tokio = { version = "1", features = ["macros", "rt-multi-thread"] }
futures-util = "0.3"
