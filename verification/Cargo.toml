[package]
name = "home_fm_server"
version = "0.1.0"
edition = "2021"
publish = false

[dependencies]
actix = "0.7"
actix-web = { version = "0.7", default-features = false }
chrono = { version = "0.4", features = ["serde"] }
diesel = { version = "1.4", features = ["sqlite", "r2d2"] }
dotenv = "0.15"
env_logger = "0.6"
futures = "0.1"
num_cpus = "1"
serde = { version = "1", features = ["derive"] }
serde_json = "1"
tokio-process = "0.2"
uuid = { version = "0.7", features = ["v4", "serde"] }
