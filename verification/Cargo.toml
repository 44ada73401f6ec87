[package]
name = "climm"
version = "0.1.0"
edition = "2021"
publish = false

[dependencies]
indexmap = { version = "2", features = ["serde"] }
pathdiff = "0.2"
serde = { version = "1", features = ["derive"] }
serde_derive = "1"
toml = "0.5"
walkdir = "2"
