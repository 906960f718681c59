[package]
name = "api_gateway"
version = "0.1.0"
edition = "2021"
publish = false

[dependencies]
regex = "1"
url = "2"
serde = { version = "1", features = ["derive"] }
serde_json = "1"
anyhow = "1"
once_cell = "1"
clap = "4"
config = "*"
tokio = { version = "1", features = ["rt-multi-thread", "macros", "net"] }
axum = "*"
reqwest = { version = "0.12", default-features = false }
tracing = "0.1"
tracing-subscriber = { version = "0.3", features = ["env-filter", "json"] }
