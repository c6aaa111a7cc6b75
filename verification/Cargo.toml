[package]
name = "vibrant"
version = "0.1.0"
edition = "2021"
publish = false

[dependencies]
gtk4 = { version = "0.7", features = ["v4_10"] }
libadwaita = { version = "0.5", features = ["v1_4"] }
