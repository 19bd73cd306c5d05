[package]
name = "websurfx"
version = "0.1.0"
edition = "2021"
publish = false

[dependencies]
md5 = "*"
scraper = "*"
redis = { version = "*", features = ["tokio-comp", "connection-manager"] }
reqwest = { version = "*", default-features = false }
futures = "*"
async-trait = "*"
error-stack = "*"
