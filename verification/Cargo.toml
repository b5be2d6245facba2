[package]
name = "secret_sealer"
version = "0.1.0"
edition = "2021"
publish = false

[dependencies]
actix-web = "4"
actix-cors = "*"
actix-web-prom = "*"
serde = { version = "1", features = ["derive"] }
env_logger = "*"
log = "*"
