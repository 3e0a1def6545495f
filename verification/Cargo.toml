[package]
name = "auth_gate"
version = "0.1.0"
edition = "2021"
publish = false

[dependencies]
jsonwebtoken = "9"
serde_json = "1"
bcrypt = "*"
serde = { version = "1", features = ["derive"] }
validator = { version = "*", features = ["derive"] }
actix-web = { version = "4", default-features = false, features = ["macros", "cookies"] }
futures = "0.3"
sqlx = { version = "0.8", default-features = false, features = ["postgres", "runtime-tokio"] }
dotenvy = "0.15"
env_logger = "0.11"
