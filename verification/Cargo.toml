[package]
name = "design_master"
version = "0.1.0"
edition = "2021"
publish = false

[dependencies]
eframe = { version = "0.17.0", features = ["persistence"] }
serde = { version = "1", features = ["derive"] }
