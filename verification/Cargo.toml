[package]
name = "newsletter"
version = "0.1.0"
edition = "2021"
publish = false

[dependencies]
anyhow = "1"
argon2 = { version = "=0.5.3", features = ["std"] }
axum = "=0.7.9"
axum-flash = "=0.8.0"
chrono = { version = "=0.4.45", default-features = false, features = ["clock"] }
rand = "=0.9.5"
reqwest = { version = "=0.12.28", default-features = false, features = ["json"] }
secrecy = { version = "=0.10.3", features = ["serde"] }
serde = { version = "1", features = ["derive"] }
sqlx = { version = "=0.8.6", default-features = false, features = ["runtime-tokio", "postgres", "uuid", "chrono"] }
thiserror = "2"
time = "0.3"
tokio = { version = "1", features = ["macros", "rt-multi-thread", "net"] }
tower-http = { version = "0.6", features = ["trace"] }
tower-sessions = "=0.13.0"
tower-sessions-redis-store = "0.14"
tracing = "0.1"
unicode-segmentation = "=1.13.3"
uuid = { version = "=1.29.0", features = ["v4"] }
