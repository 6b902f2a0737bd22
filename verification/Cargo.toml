[package]
name = "rossoflix_api"
version = "0.1.0"
edition = "2021"
publish = false

[dependencies]
urlencoding = "*"
axum = "*"
tokio = { version = "*", features = ["full"] }
tokio-util = { version = "*", features = ["io"] }
tower-http = { version = "*", features = ["cors", "trace", "compression-gzip"] }
reqwest = { version = "*", default-features = false, features = ["json"] }
serde = { version = "*", features = ["derive"] }
serde_json = "*"
moka = { version = "*", features = ["future"] }
thiserror = "*"
futures-util = "*"
dotenvy = "*"
tracing = "*"
tracing-subscriber = { version = "*", features = ["env-filter"] }
