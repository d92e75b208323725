[package]
name = "bombuscv-display"
version = "0.1.0"
edition = "2021"
publish = false

[dependencies]
chrono = "0.4"
clap = { version = "3.2", features = ["derive"] }
embedded-graphics = "0.7"
interfaces = "0.0.8"
procfs = "0.14"
rppal = { version = "0.14", features = ["hal"] }
signal-hook = "0.3"
ssd1306 = "0.7"
