[package]
name = "timeseries_service"
version = "0.1.0"
edition = "2021"
publish = false

[dependencies]
sqlx = { version = "*", default-features = false, features = ["postgres", "runtime-tokio"] }
axum = { version = "*", features = ["macros"] }
tokio = { version = "*", features = ["rt-multi-thread", "macros", "signal", "net"] }
tower-http = { version = "*", features = ["cors", "trace"] }
tracing = "*"
tracing-subscriber = { version = "*", features = ["env-filter"] }
serde = { version = "*", features = ["derive"] }
