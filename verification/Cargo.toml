[package]
name = "meta_engine"
version = "0.1.0"
edition = "2021"
publish = false

[dependencies]
uuid = { version = "1", features = ["v4"] }
redis = { version = "*", features = ["tokio-comp", "aio"] }
bb8 = "*"
bb8-redis = "*"
tokio = { version = "1", features = ["full"] }
tokio-util = "*"
tokio-stream = "*"
futures = "*"
axum = "0.8"
serde = { version = "1", features = ["derive"] }
serde_json = "1"
sea-orm = { version = "1", default-features = false, features = ["sqlx-postgres", "runtime-tokio-rustls", "macros"] }
sea-orm-migration = { version = "1", default-features = false, features = ["sqlx-postgres", "runtime-tokio-rustls"] }
reqwest = { version = "0.12", default-features = false, features = ["rustls-tls"] }
thiserror = "2"
tracing = "0.1"
tracing-subscriber = { version = "0.3", features = ["env-filter"] }
dotenv = "0.15"
async-trait = "0.1"
