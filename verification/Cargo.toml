[package]
name = "pocketcasts"
version = "0.1.0"
edition = "2021"
publish = false

[dependencies]
cookie = "=0.18.2"
reqwest = { version = "=0.13.5", default-features = false, features = ["form", "json"] }
serde = { version = "=1.0.229", features = ["derive"] }
serde_json = "=1.0.151"
uuid = { version = "=1.27.0", features = ["serde"] }
