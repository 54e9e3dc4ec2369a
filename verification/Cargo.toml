[package]
name = "draft_db"
version = "0.1.0"
edition = "2021"
publish = false

[dependencies]
diesel = "*"
diesel-async = { version = "*", features = ["postgres", "deadpool"] }
serde = { version = "*", features = ["derive"] }
serde_with = "*"
ts-rs = "*"
typed-builder = "*"
