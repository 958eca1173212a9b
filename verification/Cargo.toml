[package]
name = "posthog_client"
version = "0.1.0"
edition = "2021"
publish = false

[dependencies]
anyhow = "=1.0.104"
aws-config = "=1.12.0"
aws-sdk-secretsmanager = "=1.120.0"
chrono = "=0.4.45"
google-secretmanager1 = { version = "=7.0.0+20251209", features = ["yup-oauth2-service-account"] }
hyper = { version = "=0.14.32", features = ["client", "http1", "http2", "tcp"] }
hyper-tls = "=0.5.0"
tokio = { version = "=1.53.2", features = ["full"] }

[dev-dependencies]
serde_json = "=1.0.151"
