[package]
name = "flam"
version = "0.1.0"
edition = "2021"
publish = false

[dependencies]
chrono = "*"
ego-tree = "*"
env_logger = "*"
log = "*"
reqwest = { version = "*", default-features = false }
scraper = "*"
selectors = "*"
thiserror = "*"
tokio = { version = "*", features = ["macros", "rt-multi-thread"] }
xml-rs = "*"
