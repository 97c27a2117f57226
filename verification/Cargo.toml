[package]
name = "hit_counter"
version = "0.1.0"
edition = "2021"
publish = false

[dependencies]
aws-config = "*"
aws-sdk-dynamodb = "*"
aws-sdk-lambda = "*"
aws-smithy-types = "*"
lambda_runtime = "*"
serde_json = "1"
tokio = { version = "1", features = ["macros", "rt-multi-thread"] }
