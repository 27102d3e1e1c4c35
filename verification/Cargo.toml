[package]
name = "fortunes"
version = "0.1.0"
edition = "2021"
publish = false

[dependencies]
url = "*"
axum = "*"
clap = { version = "*", features = ["derive", "env"] }
color-eyre = "*"
deadpool-postgres = "*"
dotenvy = "*"
serde = { version = "*", features = ["derive"] }
thiserror = "*"
tokio = { version = "*", features = ["full"] }
tokio-postgres = "*"
tracing = "*"
tracing-error = "*"
tracing-subscriber = { version = "*", features = ["env-filter"] }
