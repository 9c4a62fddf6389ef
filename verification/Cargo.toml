[package]
name = "jonline"
version = "0.1.0"
edition = "2021"
publish = false

[dependencies]
regex = "=1.13.1"
tonic = "=0.14.6"
diesel = { version = "=2.3.14", features = ["postgres", "r2d2", "serde_json"] }
serde_json = "=1.0.154"
itertools = "=0.15.0"
rocket = "=0.5.2"
rocket-cache-response = "=0.7.0"
rust-s3 = "=0.38.0"
aws-creds = "=0.40.0"
aws-region = "=0.29.0"
