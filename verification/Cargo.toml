[package]
name = "rumos"
version = "0.1.0"
edition = "2021"
publish = false

[dependencies]
brightness = "*"
clap = { version = "*", features = ["derive"] }
colored = "*"
futures = "*"
