[package]
name = "iex"
version = "0.1.0"
edition = "2021"
publish = false

[dependencies]
url = "*"
serde = { version = "*", features = ["derive"] }
serde_json = "*"

[dev-dependencies]
chrono = "*"
