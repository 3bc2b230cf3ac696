[package]
name = "contact_relay"
version = "0.1.0"
edition = "2021"
publish = false

[dependencies]
serde_json = "*"
serde = { version = "*", features = ["derive"] }
reqwest = { version = "*", default-features = false, features = ["json"] }
tokio = { version = "*", features = ["macros", "rt"] }
lambda_http = "*"
aws-config = { version = "*", default-features = false }
aws-sdk-ses = { version = "*", default-features = false }
tracing = "*"
tracing-subscriber = "*"
