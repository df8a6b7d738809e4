[package]
name = "zero2prod"
version = "0.1.0"
edition = "2021"
publish = false

[dependencies]
rand = "0.8"
unicode-segmentation = "1"
validator = "0.16"
uuid = { version = "1", features = ["v4"] }
serde = { version = "1", features = ["derive"] }
actix-web = { version = "4", default-features = false, features = ["macros", "cookies"] }
actix-web-flash-messages = { version = "0.4", features = ["cookies"] }
tokio = { version = "1", features = ["macros", "rt-multi-thread"] }
sqlx = { version = "0.7", default-features = false, features = ["runtime-tokio", "postgres", "uuid", "chrono"] }
reqwest = { version = "0.11", default-features = false, features = ["json"] }
secrecy = { version = "0.8", features = ["serde"] }
anyhow = "1"
thiserror = "1"
tracing = "0.1"
