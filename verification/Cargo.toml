[package]
name = "thur_storage"
version = "0.1.0"
edition = "2021"
publish = false

[dependencies]
async-trait = "*"
aws-config = { version = "1", default-features = false, features = ["credentials-process", "default-https-client", "rt-tokio", "sso"] }
aws-sdk-s3 = { version = "1", default-features = false, features = ["default-https-client", "http-1x", "rt-tokio", "sigv4a"] }
axum = { version = "0.8", default-features = false }
azure_core = "0.35"
azure_identity = "0.35"
azure_storage_blob = "0.12"
blake3 = "1"
fs2 = "*"
futures = "0.3"
google-cloud-auth = "*"
google-cloud-gax = "*"
google-cloud-storage = "*"
hex = "*"
lru = "*"
lz4_flex = "*"
opentelemetry = "*"
opentelemetry-otlp = { version = "0.33", default-features = false, features = ["metrics", "grpc-tonic", "http-proto", "reqwest-blocking-client"] }
opentelemetry-prometheus = "*"
opentelemetry-semantic-conventions = "*"
opentelemetry_sdk = { version = "*", features = ["metrics"] }
prometheus = { version = "0.14", default-features = false }
rand = "0.9"
reqwest = { version = "0.13", default-features = false, features = ["json"] }
rustls = "0.23"
serde = { version = "1", features = ["derive"] }
serde_json = "1"
tokio = { version = "1", features = ["fs", "io-util", "macros", "rt", "sync", "time"] }
tonic = { version = "0.14", default-features = false }
zstd = "0.13"
