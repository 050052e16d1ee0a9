[package]
name = "sunberry"
version = "0.1.0"
edition = "2021"
publish = false

[dependencies]
chrono = { version = "0.4", features = ["serde"] }
markdown = "1.0.0-alpha"
colored = "2"
log = "0.4"
env_logger = "0.11"
serde = { version = "1", features = ["derive"] }
sysinfo = "0.30"
rand = "0.8"
rusqlite = { version = "0.31", features = ["bundled", "chrono"] }
axum = "0.7"
tokio = { version = "1", features = ["full"] }
tower-http = { version = "0.5", features = ["fs"] }
askama = "0.12"
askama_axum = "0.4"
actix-web = "4"
actix-files = "0.6"
actix-web-lab = "0.20"
