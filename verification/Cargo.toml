[package]
name = "tg_requests"
version = "0.1.0"
edition = "2021"
publish = false

[dependencies]
async-trait = "0.1"
pin-project = "1"
serde = { version = "1", features = ["derive"] }
serde_with_macros = "1"
