[package]
name = "thingblock-link"
version = "0.1.0"
edition = "2021"
publish = false

[dependencies]
axum = { version = "0.8", default-features = false, features = ["http1", "json", "tokio", "ws"] }
base64 = "0.22"
btleplug = "0.11"
clap = { version = "4", default-features = false, features = ["derive", "std", "help", "usage"] }
dunce = "1"
futures = { version = "0.3", default-features = false, features = ["std"] }
image = { version = "0.25", default-features = false, features = ["png"] }
prost = "0.14"
serde = { version = "1", features = ["derive"] }
serde_json = "1"
tokio = { version = "1", features = ["full"] }
tokio-util = "0.7"
tonic = { version = "0.14", default-features = false, features = ["channel", "codegen"] }
tonic-prost = "0.14"
tower-http = { version = "0.6", features = ["cors", "fs", "limit", "set-header"] }
tracing = "0.1"
tracing-subscriber = { version = "0.3", default-features = false, features = ["env-filter", "fmt"] }
uuid = "1"
