[package]
name = "gupax"
version = "0.1.0"
edition = "2021"
publish = false

[dependencies]
egui = "*"
notify-rust = "*"
tokio = { version = "*", features = ["rt", "time"] }
