[package]
name = "blob_gateway"
version = "0.1.0"
edition = "2021"
publish = false

[dependencies]
sha2 = "*"
base64 = "*"
anyhow = "*"
tokio = { version = "*", features = ["macros", "rt-multi-thread"] }
aws-config = "*"
aws-sdk-s3 = "*"
