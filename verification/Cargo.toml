[package]
name = "roblox_api"
version = "0.1.0"
edition = "2021"
publish = false

[dependencies]
ahash = "=0.8.12"
arc-swap = "=1.9.2"
async-stream = "=0.3.6"
async-trait = "=0.1.92"
chrono = "=0.4.45"
dashmap = "=6.2.1"
futures = "=0.3.34"
reqwest = { version = "=0.13.5", default-features = false, features = ["cookies", "query"] }
serde = { version = "=1.0.229", features = ["derive"] }
sonic-rs = "=0.5.10"
uuid = { version = "=1.27.0", features = ["serde"] }
