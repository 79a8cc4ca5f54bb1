[package]
name = "shopdrop"
version = "0.1.0"
edition = "2021"
publish = false

[dependencies]
rand = "=0.9.5"
serde = { version = "=1.0.229", features = ["derive"] }
serde_json = "=1.0.154"
tokio = { version = "=1.54.1", features = ["sync", "time", "rt"] }
actix = "=0.13.5"
actix-rt = "=2.15.0"
actix-web = { version = "=4.18.1", default-features = false, features = ["macros", "ws"] }
actix-web-actors = "=4.3.1"
rusqlite = { version = "=0.41.1", features = ["bundled"] }
log = "=0.4.35"
env_logger = "=0.11.11"
