[package]
name = "spog_api"
version = "0.1.0"
edition = "2021"
publish = false

[dependencies]
actix-web = "4"
actix-web-extras = "*"
actix-web-httpauth = "*"
chrono = { version = "0.4", features = ["serde"] }
http = "0.2"
reqwest = { version = "0.11", default-features = false, features = ["json", "stream"] }
serde = { version = "1", features = ["derive"] }
tokio = { version = "1", features = ["sync"] }
tracing = "0.1"
url = "2"
