[package]
name = "entity_access"
version = "0.1.0"
edition = "2021"
publish = false

[dependencies]
surrealdb = { version = "=1.0.0-beta.8", default-features = false, features = ["kv-mem"] }
actix-web = "=4.18.1"
env_logger = "=0.10.2"
serde = { version = "=1.0.229", features = ["derive"] }
serde_json = "=1.0.154"
thiserror = "=1.0.69"
