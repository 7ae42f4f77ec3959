[package]
name = "webdav_rs"
version = "0.1.0"
edition = "2021"
publish = false

[dependencies]
serde_json = "*"
dashmap = "*"
chrono = "*"
axum = "*"
tokio = { version = "*", features = ["full"] }
reqwest = { version = "*", default-features = false, features = ["json"] }
serde = { version = "*", features = ["derive"] }
toml = "*"
bytes = "*"
futures = "*"
tokio-util = { version = "*", features = ["io"] }
tower-http = { version = "*", features = ["trace"] }
tracing = "*"
tracing-appender = "*"
tracing-subscriber = { version = "*", features = ["env-filter"] }
quick-xml = "*"
http = "*"
thiserror = "*"
uuid = { version = "*", features = ["v4"] }
async-trait = "*"
