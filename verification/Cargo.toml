[package]
name = "shelf"
version = "0.1.0"
edition = "2021"
publish = false

[dependencies]
chrono = "=0.4.45"
directories = "=6.0.0"
dotenv = "=0.15.0"
iced = { version = "=0.14.0", default-features = false, features = ["tiny-skia", "thread-pool", "tokio", "x11"] }
serde = { version = "=1.0.229", features = ["derive"] }
serde_json = "=1.0.154"
sqlx = { version = "=0.8.6", default-features = false, features = ["sqlite", "runtime-tokio", "chrono"] }
