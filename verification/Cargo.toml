[package]
name = "news_director"
version = "0.1.0"
edition = "2021"
publish = false

[dependencies]
hound = "*"
nanoid = "*"
reqwest = { version = "*", features = ["json"] }
scraper = "*"
serde = { version = "*", features = ["derive"] }
serde_json = "*"
tokio = { version = "*", features = ["full"] }
openai = "*"
