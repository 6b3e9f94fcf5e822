[package]
name = "simple_search"
version = "0.1.0"
edition = "2021"
publish = false

[dependencies]
clap = "*"
futures = "*"
serde = { version = "*", features = ["derive"] }
simple_google = "=0.1.1"
spider = { version = "=2.53.9", default-features = false, features = ["sync"] }
spider_transformations = { version = "=2.39.13", default-features = false, features = ["serde"] }
