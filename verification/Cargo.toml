[package]
name = "transaction_processor"
version = "0.1.0"
edition = "2021"
publish = false

[dependencies]
clap = "4"
csv = "1"
serde = { version = "1", features = ["derive"] }
