[package]
name = "rust_kratos"
version = "0.1.0"
edition = "2021"
publish = false

[dependencies]
chrono = { version = "=0.4.45", features = ["serde"] }
serde = { version = "=1.0.229", features = ["derive"] }
serde_json = "=1.0.154"
anyhow = "=1.0.104"
tokio = { version = "=1.54.1", features = ["full"] }
reqwest = { version = "=0.12.28", default-features = false, features = ["json", "rustls-tls"] }
actix-web = "=4.18.1"
actix-cors = "=0.7.2"
actix-web-prometheus = "=0.1.2"
tracing = "=0.1.44"
tracing-subscriber = { version = "=0.3.23", features = ["env-filter"] }
tracing-actix-web = "=0.7.25"
utoipa = { version = "=5.5.0", features = ["chrono"] }
utoipa-swagger-ui = { version = "9", features = ["actix-web"] }
dotenvy = "=0.15.7"
config = { version = "=0.15.27", default-features = false, features = ["toml"] }
opentelemetry = "=0.28.0"
opentelemetry_sdk = { version = "=0.28.0", features = ["rt-tokio"] }
opentelemetry-otlp = { version = "=0.28.0", features = ["grpc-tonic"] }
tracing-opentelemetry = "=0.29.0"
tonic = "=0.12.3"
