[package]
name = "tibia_api"
version = "0.1.0"
edition = "2021"
publish = false

[dependencies]
scraper = "=0.27.0"
axum = "=0.8.9"
tokio = { version = "=1.53.2", features = ["rt-multi-thread", "macros", "net", "signal"] }
reqwest = { version = "=0.13.5", default-features = false, features = ["query"] }
futures = "=0.3.34"
serde = { version = "=1.0.229", features = ["derive"] }
capitalize = "=0.3.4"
