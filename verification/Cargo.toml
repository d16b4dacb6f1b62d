[package]
name = "handy_devops"
version = "0.1.0"
edition = "2021"
publish = false

[dependencies]
chrono = "*"
hostname = "*"
serde = { version = "*", features = ["derive"] }
serde_json = "*"
gray_matter = "*"
