[package]
name = "metabase_embed"
version = "0.1.0"
edition = "2021"
publish = false

[dependencies]
hmac = "0.12"
jwt = "0.16"
sha2 = "0.10"
serde = { version = "1", features = ["derive"] }
serde_json = { version = "1", features = ["raw_value"] }
lambda_http = "*"
tokio = { version = "1", features = ["macros", "rt-multi-thread"] }

[dev-dependencies]
base64 = "0.13"
