[package]
name = "eneo"
version = "0.1.0"
edition = "2021"
publish = false

[dependencies]
argon2 = { version = "0.5", features = ["std"] }
rand = "*"
uuid = { version = "1", features = ["v4"] }
chrono = "0.4"
jsonwebtoken = { version = "10", features = ["rust_crypto"] }
rocket = { version = "0.5", features = ["json"] }
rocket-authorization = "*"
serde = { version = "1", features = ["derive"] }
sqlx = { version = "*", features = ["postgres", "runtime-tokio", "chrono", "uuid"] }
dotenvy = "0.15"
tracing = "0.1"
tracing-appender = "0.2"
tracing-subscriber = { version = "0.3", features = ["json"] }
