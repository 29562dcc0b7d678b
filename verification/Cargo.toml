[package]
name = "job_scraper"
version = "0.1.0"
edition = "2021"
publish = false

[dependencies]
uuid = { version = "1", features = ["v4", "serde"] }
chrono = { version = "0.4", features = ["serde"] }
serde = { version = "1", features = ["derive"] }
serde_json = "1"
tokio = { version = "1", features = ["macros", "rt-multi-thread", "time"] }
async-trait = "0.1"
futures = "0.3"
tracing = "0.1"
tracing-subscriber = "0.3"
axum = "0.8"
lambda_http = "*"
lambda_runtime = "*"
aws-config = { version = "1", features = ["behavior-version-latest"] }
aws-sdk-dynamodb = "1"
aws-sdk-s3 = "1"
serde_dynamo = { version = "4", features = ["aws-sdk-dynamodb+1"] }
chromiumoxide = { version = "0.7", default-features = false, features = ["tokio-runtime"] }
