[package]
name = "goals_backend"
version = "0.1.0"
edition = "2021"
publish = false

[dependencies]
rust-argon2 = "2"
image = { version = "0.24", default-features = false, features = ["png", "jpeg"] }
actix-web = "4"
actix-multipart = "0.6"
actix-files = "0.6"
jsonwebtoken = "9"
serde = { version = "1", features = ["derive"] }
chrono = "0.4"
directories = "5"
dotenvy = "0.15"
tokio = { version = "1", features = ["fs", "macros", "rt-multi-thread"] }
async_once = "0.2"
lazy_static = "1"
rand = "0.8"
