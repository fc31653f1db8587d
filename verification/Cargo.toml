[package]
name = "bicat"
version = "0.1.0"
edition = "2021"
publish = false

[dependencies]
clap = "4"
indicatif = "0.17"
reqwest = { version = "0.12", features = ["json"] }
serde = { version = "1", features = ["derive"] }
serde_json = "1"
tokio = { version = "1", features = ["full"] }
