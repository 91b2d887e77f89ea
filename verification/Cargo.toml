[package]
name = "hero_image"
version = "0.1.0"
edition = "2021"
publish = false

[dependencies]
url = "*"
reqwest = { version = "*", default-features = false, features = ["rustls-tls", "http2"] }
tokio = { version = "*", features = ["macros", "rt-multi-thread"] }
vercel_runtime = "*"
chrono = "*"
