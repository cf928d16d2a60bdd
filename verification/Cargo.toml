[package]
name = "soundboard"
version = "0.1.0"
edition = "2021"
publish = false

[dependencies]
nfd = "0.0.4"
rodio = "0.11"
serenity = "0.9"
sqlx = { version = "0.3", default-features = false, features = ["runtime-tokio", "sqlite"] }
tokio = { version = "0.2", features = ["full"] }
