[package]
name = "depin_orcha"
version = "1.0.0"
edition = "2021"
publish = false

[dependencies]
actix-web = "4"
actix-ws = "*"
anyhow = "1"
async-trait = "0.1"
bcrypt = "*"
chrono = { version = "0.4", features = ["serde"] }
dotenv = "0.15"
env_logger = "*"
futures = "0.3"
futures-util = "0.3"
log = "0.4"
serde = { version = "1", features = ["derive"] }
serde_json = "1"
sqlx = { version = "*", default-features = false, features = ["sqlite", "runtime-tokio", "chrono"] }
thiserror = "1"
tokio = { version = "1", features = ["rt-multi-thread", "macros", "sync", "time", "signal"] }
tracing = "0.1"
tracing-subscriber = { version = "0.3", features = ["env-filter"] }
uuid = { version = "1", features = ["v4"] }
