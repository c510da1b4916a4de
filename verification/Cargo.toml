[package]
name = "lunar_insight"
version = "0.1.0"
edition = "2021"
publish = false

[dependencies]
chrono = "0.4"
dotenv = "0.15"
reqwest = { version = "0.11", default-features = false, features = ["blocking", "json"] }
serde_json = "1"
