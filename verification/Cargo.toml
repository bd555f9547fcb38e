[package]
name = "baul"
version = "0.1.0"
edition = "2021"
publish = false

[dependencies]
opendal = { version = "=0.53.3", features = ["services-s3"] }
aws-sdk-s3 = { version = "=1.155.0", default-features = false, features = ["behavior-version-latest", "rt-tokio", "default-https-client"] }
aws-credential-types = "=1.3.1"
chrono = "=0.4.45"
uuid = { version = "=1.29.0", features = ["v4"] }
serde = { version = "=1.0.229", features = ["derive"] }
serde_json = "=1.0.154"
tokio = { version = "=1.54.1", features = ["sync", "fs", "rt"] }
futures = "=0.3.34"
keyring = "=3.6.3"
directories = "=5.0.1"
thiserror = "=1.0.69"
log = "=0.4.34"
