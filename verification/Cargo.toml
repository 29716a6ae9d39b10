[package]
name = "rust_starter"
version = "0.1.0"
edition = "2021"
publish = false

[dependencies]
anyhow = "1"
argon2 = "0.5"
arc-swap = "1"
async-trait = "0.1"
axum = "0.8"
chrono = { version = "0.4", features = ["serde"] }
config = { version = "*", default-features = false, features = ["toml", "yaml"] }
dotenvy = "0.15"
governor = "*"
inventory = "0.3"
log = "0.4"
notify = "*"
reqwest = { version = "*", default-features = false }
sea-orm = { version = "1", default-features = false, features = ["sqlx-postgres", "runtime-tokio-rustls", "macros", "with-json", "with-chrono", "with-uuid"] }
serde = { version = "1", features = ["derive"] }
serde_json = "1"
tokio = { version = "1", features = ["full"] }
tower = "0.5"
tower-http = { version = "0.6", features = ["cors", "trace", "request-id", "set-header", "limit", "compression-gzip", "catch-panic", "sensitive-headers", "util"] }
tower_governor = "*"
tracing = "0.1"
tracing-error = "0.2"
tracing-log = "0.2"
tracing-subscriber = { version = "0.3", features = ["env-filter", "json"] }
utoipa = { version = "5", features = ["uuid", "chrono"] }
uuid = { version = "1", features = ["v4", "serde"] }
