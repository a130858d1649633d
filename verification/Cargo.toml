[package]
name = "paperdump"
version = "0.1.0"
edition = "2021"
publish = false

[dependencies]
anyhow = "*"
argh = "*"
chrono = "*"
crossbeam = "*"
humantime-serde = "*"
leptess = "*"
log = "*"
nanoid = "*"
notify = "*"
pretty_env_logger = "*"
serde = { version = "*", features = ["derive"] }
toml = "*"
