[package]
name = "event_finder"
version = "0.1.0"
edition = "2021"
publish = false

[dependencies]
chrono = "*"
scraper = "*"
serde_json = "*"
url = "*"
reqwest = { version = "*", default-features = false, features = ["blocking"] }
