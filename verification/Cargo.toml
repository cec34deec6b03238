[package]
name = "gaana_core"
version = "0.1.0"
edition = "2021"
publish = false

[dependencies]
serde_json = "*"
base64 = "*"
aes = "*"
cbc = { version = "*", features = ["block-padding", "alloc"] }
urlencoding = "*"
serde = { version = "*", features = ["derive"] }
axum = "*"
tokio = { version = "*", features = ["rt-multi-thread", "macros", "net"] }
reqwest = { version = "*", default-features = false, features = ["rustls-tls"] }
tower = "*"
tower-http = { version = "*", features = ["cors", "trace"] }
utoipa = { version = "*", features = ["axum_extras"] }
utoipa-swagger-ui = { version = "*", features = ["axum"] }
tracing = "*"
tracing-subscriber = { version = "*", features = ["env-filter"] }
dotenvy = "*"
