[package]
name = "mailtutan-lib"
version = "0.1.0"
edition = "2021"
publish = false

[dependencies]
anyhow = "1"
chrono = "0.4"
mail-parser = "0.9"
serde = { version = "1", features = ["derive"] }
uuid = { version = "1", features = ["v4"] }
