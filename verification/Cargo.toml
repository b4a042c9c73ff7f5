[package]
name = "episode_fetcher"
version = "0.1.0"
edition = "2021"
publish = false

[dependencies]
console = "*"
futures-util = "*"
indicatif = "*"
regex = "*"
reqwest = { version = "*", features = ["stream"] }
scraper = "*"
tokio = { version = "*", features = ["rt", "macros"] }
