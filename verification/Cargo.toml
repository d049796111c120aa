[package]
name = "rust-axum-image-bbs"
version = "0.1.0"
edition = "2021"
publish = false

[dependencies]
infer = "0.16"
axum = "0.7"
tokio = { version = "1", features = ["macros", "rt-multi-thread", "net", "fs"] }
tower-http = { version = "0.5", features = ["trace", "fs"] }
sqlx = { version = "0.8", default-features = false, features = ["runtime-tokio", "sqlite", "chrono", "migrate"] }
serde = { version = "1", features = ["derive"] }
tracing = "0.1"
tracing-subscriber = { version = "0.3", features = ["env-filter"] }
thiserror = "1"
anyhow = "1"
chrono = "0.4"
