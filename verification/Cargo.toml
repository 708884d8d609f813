[package]
name = "limited_sniper"
version = "0.1.0"
edition = "2021"
publish = false

[dependencies]
atomic-counter = "1.0"
rayon = "1"
reqwest = { version = "0.11", features = ["blocking", "json"] }
serde = { version = "1", features = ["derive"] }
thiserror = "1"
uuid = { version = "1", features = ["v4"] }
