[package]
name = "mensatt"
version = "0.1.0"
edition = "2021"
publish = false

[dependencies]
anyhow = "1"
argon2 = "0.5"
async-graphql = { version = "7", features = ["dataloader", "uuid", "chrono"] }
async-graphql-axum = "7"
axum = "0.8"
bigdecimal = "0.4"
chrono = "0.4"
config = { version = "0.14", default-features = false, features = ["yaml"] }
diesel = { version = "2", features = ["postgres", "r2d2", "uuid", "chrono", "numeric"] }
diesel-derive-enum = { version = "2", features = ["postgres"] }
diesel_migrations = { version = "2", features = ["postgres"] }
env_logger = "0.11"
futures-util = "0.3"
jsonwebtoken = "9"
log = "0.4"
rand_core = { version = "0.6", features = ["getrandom"] }
reqwest = { version = "0.12", default-features = false }
serde = { version = "1", features = ["derive"] }
tokio = { version = "1", features = ["macros", "rt-multi-thread", "net", "sync"] }
tokio-stream = { version = "0.1", features = ["sync"] }
tower-http = { version = "0.6", features = ["cors"] }
uuid = { version = "1", features = ["v4", "serde"] }
