[package]
name = "erabu"
version = "0.1.0"
edition = "2021"
publish = false

[dependencies]
eframe = { version = "0.15", features = ["persistence"] }
rand = "0.8"
serde = { version = "1", features = ["derive"] }
