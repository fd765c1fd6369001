[package]
name = "bier_core"
version = "0.1.0"
edition = "2021"
publish = false

[dependencies]
aes-gcm = "=0.10.3"
argon2 = { version = "=0.5.3", features = ["std"] }
async-graphql = { version = "=7.2.1", features = ["time", "uuid"] }
async-graphql-axum = "=7.2.1"
axum = "=0.8.9"
base64 = "=0.22.1"
directories = "5"
dotenvy = "=0.15.7"
hex = "=0.4.3"
jsonwebtoken = "=9.3.1"
reqwest = { version = "=0.12.28", default-features = false, features = ["json", "rustls-tls"] }
serde = { version = "=1.0.229", features = ["derive"] }
serde_json = "=1.0.154"
sqlx = { version = "=0.8.6", default-features = false, features = ["runtime-tokio", "postgres", "uuid", "time"] }
time = "=0.3.55"
tokio = { version = "=1.54.1", features = ["rt-multi-thread", "macros", "fs", "net"] }
tower-http = { version = "=0.6.11", features = ["cors"] }
tracing = "=0.1.44"
tracing-subscriber = "=0.3.23"
uuid = "=1.29.0"
