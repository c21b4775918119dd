[package]
name = "foaas"
version = "0.1.0"
edition = "2021"
publish = false

[dependencies]
reqwest = { version = "0.11", features = ["json"] }
serde = { version = "=1.0.229", features = ["derive"] }
