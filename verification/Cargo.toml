[package]
name = "ip_risk"
version = "0.1.0"
edition = "2021"
publish = false

[dependencies]
actix-web = "*"
serde = { version = "*", features = ["derive"] }
log = "*"
env_logger = "*"
