[package]
name = "telegram"
version = "0.2.0"
edition = "2021"
publish = false

[dependencies]
serde = { version = "1", features = ["derive"] }
serde_json = "1"
reqwest = { version = "0.12", default-features = false, features = ["json"] }
ureq = { version = "3", default-features = false, features = ["json"] }
tracing = "0.1"
