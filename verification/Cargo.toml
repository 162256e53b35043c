[package]
name = "bluesky_rss_bot"
version = "0.1.0"
edition = "2021"
publish = false

[dependencies]
unicode-normalization = "*"
atrium-api = "*"
atrium-xrpc-client = "*"
chrono = "*"
feed-rs = "*"
tokio = { version = "*", features = ["macros", "rt-multi-thread"] }
reqwest = { version = "*", default-features = false, features = ["rustls-tls"] }
