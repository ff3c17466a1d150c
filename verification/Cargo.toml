[package]
name = "expiry_cache"
version = "0.1.0"
edition = "2021"
publish = false

[dependencies]
chrono = "=0.4.45"
skiplist = "=0.5.1"
tokio = { version = "=1.54.1", features = ["sync", "macros", "rt-multi-thread"] }
reqwest = { version = "=0.12.28", default-features = false, features = ["json"] }
serde = { version = "=1.0.229", features = ["derive"] }
