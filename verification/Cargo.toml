[package]
name = "sqlx_core"
version = "0.1.0"
edition = "2021"
publish = false

[dependencies]
serde = { version = "1", features = ["derive"] }
either = { version = "1", features = ["serde"] }
