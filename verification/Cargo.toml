[package]
name = "knowledgebase_repository"
version = "0.1.0"
edition = "2021"
publish = false

[dependencies]
uuid = { version = "=1.29.0", features = ["v4"] }
time = { version = "=0.3.55", features = ["formatting"] }
serde = { version = "=1.0.229", features = ["derive"] }
serde_json = "=1.0.154"
async-trait = "=0.1.92"
sqlx = { version = "=0.8.6", default-features = false, features = ["any", "sqlite", "runtime-tokio"] }
sha2 = "=0.10.9"
