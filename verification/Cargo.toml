[package]
name = "rex_axum_sdk"
version = "0.1.0"
edition = "2021"
publish = false

[dependencies]
jsonwebtoken = "=9.3.1"
pem = "=3.0.6"
serde_json = "=1.0.154"
chrono = "=0.4.45"
serde = { version = "=1.0.229", features = ["derive"] }
reqwest = { version = "=0.12.28", features = ["json"] }
axum = "=0.7.9"
hyper = "=1.12.0"
tokio = { version = "=1.54.1", features = ["full"] }
async-trait = "=0.1.92"
tracing = "=0.1.44"
sqlx = { version = "=0.8.6", default-features = false, features = ["postgres", "runtime-tokio", "macros", "derive"] }
tokio-cron-scheduler = "=0.15.1"

[dev-dependencies]
openssl = "=0.10.81"
