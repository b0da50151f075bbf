[package]
name = "gcmt"
version = "0.1.0"
edition = "2021"
publish = false

[dependencies]
console = "*"
dialoguer = { version = "*", features = ["fuzzy-select"] }
serde = { version = "*", features = ["derive"] }
