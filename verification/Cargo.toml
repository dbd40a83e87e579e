[package]
name = "file_transfer_service"
version = "0.1.0"
edition = "2021"
publish = false

[dependencies]
async-trait = "*"
aws-config = "*"
aws-sdk-s3 = "*"
axum = "*"
bytes = "*"
futures = "*"
hyper = "*"
serde = { version = "*", features = ["derive"] }
ssh2 = "*"
tokio = { version = "*", features = ["macros", "rt-multi-thread", "net", "io-util"] }
tokio-util = { version = "*", features = ["io"] }
tower = "*"
