[package]
name = "ift611_project"
version = "0.1.0"
edition = "2021"
publish = false

[dependencies]
chrono = "*"
crossbeam = "*"
crossbeam-channel = "*"
tiny_http = "*"
clap = "*"
reqwest = { version = "*", default-features = false, features = ["blocking"] }
circular-queue = "*"
serde = { version = "*", features = ["derive"] }
