[package]
name = "travel_plan"
version = "0.1.0"
edition = "2021"
publish = false

[dependencies]
dialoguer = { version = "0.11", default-features = false, features = ["fuzzy-select"] }
serde = { version = "1", features = ["derive"] }
serde_json = "1"
