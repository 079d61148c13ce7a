[package]
name = "easy_buy"
version = "0.1.0"
edition = "2021"
publish = false

[dependencies]
argon2 = "=0.6.0"
axum = { version = "=0.8.9", features = ["multipart"] }
bigdecimal = { version = "=0.4.11", features = ["serde"] }
chrono = { version = "=0.4.45", features = ["serde"] }
dotenv = "*"
jsonwebtoken = { version = "=11.1.0", features = ["rust_crypto"] }
rand_core = { version = "0.6", features = ["std"] }
serde = { version = "*", features = ["derive"] }
serde_json = "=1.0.151"
sqlx = { version = "=0.9.0", default-features = false, features = ["postgres", "runtime-tokio", "macros", "uuid", "chrono", "bigdecimal"] }
tokio = { version = "*", features = ["rt-multi-thread", "macros", "net"] }
tower-http = { version = "*", features = ["cors"] }
uuid = { version = "=1.27.0", features = ["serde", "v4"] }
