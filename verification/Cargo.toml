[package]
name = "textnorm"
version = "0.1.0"
edition = "2021"
publish = false

[dependencies]
tokenizer = "*"
rust-stemmers = "*"
serde = { version = "1", features = ["derive"] }
serde_json = "1"
