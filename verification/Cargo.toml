[package]
name = "article_service"
version = "0.1.0"
edition = "2021"
publish = false

[dependencies]
actix = "0.10"
actix-web = "3"
diesel = { version = "1.4", features = ["postgres", "r2d2", "uuidv07"] }
diesel_migrations = "1.4"
serde = { version = "1", features = ["derive"] }
uuid = { version = "0.8", features = ["serde", "v4"] }
