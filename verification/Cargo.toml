[package]
name = "hydra-shields-endpoint"
version = "0.1.0"
edition = "2021"
publish = false

[dependencies]
axum = "0.8"
futures = "0.3"
globset = "0.4"
moka = { version = "0.12", features = ["future", "sync"] }
reqwest = { version = "0.12", default-features = false, features = ["json", "rustls-tls"] }
serde = { version = "1", features = ["derive"] }
tokio = { version = "1", features = ["macros", "rt-multi-thread", "net"] }
tracing-subscriber = "0.3"
url = "2"
