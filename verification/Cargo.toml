[package]
name = "multithreaded_web_crawler"
version = "0.1.0"
edition = "2021"
publish = false

[dependencies]
chrono = "0.4"
clap = { version = "4", features = ["derive"] }
dashmap = "5"
env_logger = "0.11"
log = "0.4"
reqwest = { version = "0.12", default-features = false, features = ["rustls-tls", "charset"] }
scraper = "*"
tokio = { version = "1", features = ["rt-multi-thread", "macros", "sync", "time"] }
url = "2"
