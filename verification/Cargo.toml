[package]
name = "ptera_api"
version = "0.1.0"
edition = "2021"
publish = false

[dependencies]
fancy-regex = "0.10"
serde = { version = "1", features = ["derive"] }
serde_json = "1"
aws-config = "0.51"
aws-sdk-dynamodb = "0.21"
lambda_http = "0.7"
tokio = { version = "1", features = ["macros", "rt-multi-thread"] }
anyhow = "1"
log = "0.4"
simplelog = "0.12"
tracing = "0.1"
tracing-subscriber = "0.3"
once_cell = "1"
async-once-cell = "0.4"
dotenv = "0.15"
envy = "0.4"
