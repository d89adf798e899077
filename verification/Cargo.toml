[package]
name = "jumpers"
version = "0.1.0"
edition = "2021"
publish = false

[dependencies]
regex = "=1.13.1"
uuid = { version = "=1.29.0", features = ["v4"] }
chrono = { version = "=0.4.45", features = ["serde"] }
serde = { version = "=1.0.229", features = ["derive"] }
serde_json = "=1.0.154"
parking_lot = "=0.12.5"
thiserror = "=2.0.21"
axum = "=0.8.9"
tokio = { version = "=1.54.1", features = ["rt-multi-thread", "macros", "net", "signal"] }
tower-http = { version = "=0.6.11", features = ["cors", "trace", "request-id", "fs"] }
tracing = "=0.1.44"
tracing-subscriber = { version = "=0.3.23", features = ["env-filter", "json"] }
clap = { version = "=4.6.7", features = ["derive"] }
utoipa = "=5.5.0"
utoipa-swagger-ui = { version = "9", features = ["axum", "vendored"] }
getrandom = "=0.4.3"
config = { version = "=0.15.27", default-features = false, features = ["toml"] }
