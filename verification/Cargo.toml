[package]
name = "bubble_backend"
version = "0.1.0"
edition = "2021"
publish = false

[dependencies]
actix-cors = "0.6"
actix-session = { version = "0.7", features = ["cookie-session"] }
actix-web = "4"
chrono = "0.4"
futures = "0.3"
mongodb = "2"
reqwest = { version = "0.11", default-features = false, features = ["json", "rustls-tls"] }
serde = { version = "1", features = ["derive"] }
serde_with = "3"
tokio = { version = "1", features = ["macros", "rt-multi-thread"] }
