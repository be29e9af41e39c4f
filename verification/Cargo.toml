[package]
name = "server"
version = "0.1.0"
edition = "2021"
publish = false

[dependencies]
chrono = "=0.4.45"
uuid = { version = "=1.29.0", features = ["v4", "v7", "serde"] }
argon2 = "=0.5.3"
rand = "=0.8.8"
serde = { version = "=1.0.229", features = ["derive"] }
serde_json = "=1.0.154"
actix-web = { version = "=4.18.1", default-features = false, features = ["macros"] }
sqlx = { version = "=0.8.6", default-features = false, features = ["postgres", "runtime-tokio", "uuid", "chrono", "derive"] }
deadpool-redis = "=0.18.0"
tracing = "=0.1.44"
futures-util = "=0.3.34"
jsonwebtoken = "9"
