[package]
name = "rustedu"
version = "0.1.0"
edition = "2021"
publish = false

[dependencies]
uuid = { version = "1", features = ["v4", "v5"] }
validator = "0.20"
serde = { version = "1", features = ["derive"] }
serde_json = "1"
chrono = { version = "0.4", default-features = false, features = ["clock", "serde", "std"] }
axum = { version = "0.8", default-features = false, features = ["json", "query", "multipart", "tokio", "http1"] }
tokio = { version = "1", default-features = false, features = ["rt-multi-thread", "macros", "sync", "net", "time"] }
tokio-stream = { version = "0.1", default-features = false, features = ["sync"] }
futures = { version = "0.3", default-features = false, features = ["std"] }
async-trait = "0.1"
sea-orm = { version = "1", default-features = false, features = ["sqlx-postgres", "runtime-tokio-rustls", "macros", "with-chrono", "with-uuid", "with-json", "postgres-array"] }
sea-orm-migration = { version = "1", default-features = false, features = ["sqlx-postgres", "runtime-tokio-rustls"] }
jsonwebtoken = { version = "9", default-features = false }
reqwest = { version = "0.12", default-features = false, features = ["json", "rustls-tls"] }
tower-http = { version = "0.6", default-features = false, features = ["cors", "trace"] }
tracing = "0.1"
tracing-subscriber = { version = "0.3", default-features = false, features = ["fmt", "env-filter", "registry"] }
utoipa = { version = "5", default-features = false, features = ["macros"] }
utoipa-swagger-ui = { version = "9", default-features = false, features = ["axum"] }
anyhow = "1"
