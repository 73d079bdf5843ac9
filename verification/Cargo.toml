[package]
name = "experience_plugin"
version = "0.1.0"
edition = "2021"
publish = false

[dependencies]
chrono = { version = "0.4", default-features = false, features = ["std", "serde"] }
url = "2"
serde = { version = "1", features = ["derive"] }
serde_json = "1"
toml = "0.8"
futures = "0.3"
reqwest = { version = "0.12", default-features = false }
rocket = { version = "0.5", features = ["json"] }
leptos = "0.6"
