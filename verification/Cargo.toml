[package]
name = "health_checker"
version = "1.0.0"
edition = "2021"
publish = false

[dependencies]
actix-web = "4"
chrono = "0.4"
reqwest = "0.12"
serde = { version = "1", features = ["derive"] }
tokio = { version = "1", features = ["time"] }
