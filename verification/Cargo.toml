[package]
name = "secretly"
version = "0.1.0"
edition = "2021"
publish = false

[dependencies]
age = "*"
anyhow = "*"
arboard = "*"
chrono = "*"
clap = { version = "*", features = ["derive"] }
env_logger = "*"
log = "*"
rpassword = "*"
serde = { version = "*", features = ["derive"] }
serde_json = "*"
serde_yaml = "*"
sqlx = { version = "*", features = ["sqlite", "runtime-tokio"], default-features = false }
tabled = "*"
tokio = { version = "*", features = ["rt", "macros"] }
