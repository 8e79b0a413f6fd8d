[package]
name = "webauth"
version = "0.1.0"
edition = "2021"
publish = false

[dependencies]
rust-argon2 = "2"
rand = "0.9"
chrono = { version = "0.4", features = ["serde"] }
actix-web = { version = "4", default-features = false, features = ["macros", "cookies", "secure-cookies"] }
actix-identity = "0.8"
actix-session = { version = "0.10", features = ["cookie-session", "redis-session"] }
actix-files = "0.6"
serde = { version = "1", features = ["derive"] }
serde_json = "1"
sqlx = { version = "0.8", default-features = false, features = ["sqlite", "runtime-tokio", "macros", "migrate", "chrono"] }
tera = { version = "1", default-features = false }
thiserror = "2"
uuid = { version = "1", features = ["v4"] }
dotenv = "0.15"
env_logger = "0.11"
lazy_static = "1"
once_cell = "1"
