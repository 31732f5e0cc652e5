[package]
name = "credential_service"
version = "0.1.0"
edition = "2021"
publish = false

[dependencies]
argon2 = "0.5"
password-hash = "0.5"
rand = "0.8"
uuid = { version = "1", features = ["v4"] }
validator = "*"
serde = { version = "1", features = ["derive"] }
serde_json = "1"
actix-web = "4"
sqlx = { version = "0.8", default-features = false, features = ["mysql", "runtime-tokio"] }
dotenvy = "0.15"
