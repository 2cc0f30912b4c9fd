[package]
name = "guilder"
version = "0.1.0"
edition = "2021"
publish = false

[dependencies]
serde = { version = "1", features = ["derive"] }
serde_yaml = "0.9"
ordered-float = "4"
reqwest = { version = "0.12", default-features = false }
