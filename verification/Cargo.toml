[package]
name = "page_assets"
version = "0.1.0"
edition = "2021"
publish = false

[dependencies]
futures = "0.3"
reqwest = "0.12"
scraper = "*"
serde = { version = "1", features = ["derive"] }
tokio = { version = "1", features = ["time"] }
url = "2"
