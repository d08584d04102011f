[package]
name = "review_queue"
version = "0.1.0"
edition = "2021"
publish = false

[dependencies]
axum = { version = "=0.8.9", features = ["ws"] }
axum-extra = { version = "=0.10.3", features = ["cookie"] }
color-eyre = "=0.6.5"
dotenvy = "=0.15.7"
futures = "=0.3.34"
futures-util = "=0.3.34"
jiff = { version = "=0.2.38", features = ["serde"] }
maud = { version = "=0.27.0", features = ["axum"] }
oauth2 = "=5.0.0"
octocrab = "=0.44.1"
reqwest = { version = "=0.12.28", features = ["json"] }
rust-query = "=0.5.2"
scraper = "=0.29.0"
serde = { version = "=1.0.229", features = ["derive"] }
serde_json = "=1.0.154"
tokio = { version = "=1.54.1", features = ["full"] }
tower-http = { version = "=0.6.11", features = ["fs"] }
tracing = "=0.1.44"
tracing-subscriber = "=0.3.23"
url = "=2.5.8"
