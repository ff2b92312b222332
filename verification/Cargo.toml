[package]
name = "defer_race"
version = "0.1.0"
edition = "2021"
publish = false

[dependencies]
anyhow = "1"
reqwest = { version = "0.12", default-features = false }
tokio = { version = "1", features = ["macros", "rt", "time"] }
