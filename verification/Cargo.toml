[package]
name = "bsamples"
version = "0.1.0"
edition = "2021"
publish = false

[dependencies]
anyhow = "1"
borsh = "0.9.3"
serde = { version = "1", features = ["derive"] }
serde_json = "1"
