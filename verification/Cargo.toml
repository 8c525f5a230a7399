[package]
name = "shared_ids"
version = "0.1.0"
edition = "2021"
publish = false

[dependencies]
paste = "1"
serde = { version = "1", features = ["derive"] }
