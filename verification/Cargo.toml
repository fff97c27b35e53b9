[package]
name = "rust_web_starter"
version = "0.1.0"
edition = "2021"
publish = false

[dependencies]
anyhow = "=1.0.104"
axum = "=0.8.9"
chrono = { version = "=0.4.45", features = ["serde"] }
diesel = { version = "=2.2.12", features = ["sqlite", "chrono", "returning_clauses_for_sqlite_3_35"] }
diesel-async = { version = "=0.5.2", features = ["sqlite", "deadpool", "sync-connection-wrapper", "async-connection-wrapper"] }
diesel_migrations = { version = "=2.2.0", features = ["sqlite"] }
libsqlite3-sys = { version = "=0.35.0", features = ["bundled"] }
dotenvy = "=0.15.7"
serde = { version = "=1.0.229", features = ["derive"] }
thiserror = "=2.0.21"
tokio = { version = "=1.54.1", features = ["macros", "rt-multi-thread", "net", "signal"] }
tower-http = { version = "=0.6.11", features = ["cors", "trace", "catch-panic", "request-id", "util"] }
tracing = "=0.1.44"
tracing-subscriber = { version = "=0.3.23", features = ["env-filter", "json"] }
utoipa = { version = "=5.5.0", features = ["axum_extras", "chrono"] }
utoipa-axum = "=0.2.0"
utoipa-swagger-ui = { version = "=9.0.2", features = ["axum", "vendored"] }
