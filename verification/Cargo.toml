[package]
name = "blend_server"
version = "0.1.0"
edition = "2021"
publish = false

[dependencies]
axum = { version = "=0.7.9", features = ["macros"] }
axum-server = { version = "=0.7.3", features = ["tls-openssl"] }
http = "=1.5.0"
hyper = "=1.12.0"
serde = { version = "=1.0.229", features = ["derive"] }
tokio = { version = "=1.54.1", features = ["full"] }
tracing = "=0.1.44"
tracing-subscriber = { version = "=0.3.23", features = ["env-filter"] }
utoipa = { version = "=5.5.0", features = ["axum_extras"] }
utoipa-axum = "=0.1.3"
utoipa-swagger-ui = { version = "=8.1.0", features = ["axum", "vendored"] }
zip = { version = "=2.4.2", default-features = false }
