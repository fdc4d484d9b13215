[package]
name = "hamui"
version = "0.1.0"
edition = "2021"
publish = false

[dependencies]
crossterm = "*"
serde = { version = "*", features = ["derive"] }
