[package]
name = "discors"
version = "0.1.0"
edition = "2021"
publish = false

[dependencies]
async-trait = "0.1"
reqwest = { version = "0.11", default-features = false }
serde = { version = "1", features = ["derive"] }

[dev-dependencies]
serde_json = "1"
