[package]
name = "worldtimeapi"
version = "0.4.1"
edition = "2021"
publish = false

[dependencies]
serde_json = "*"
serde = { version = "*", features = ["derive"] }
chrono = { version = "*", features = ["serde"] }
reqwest = { version = "*", default-features = false }
