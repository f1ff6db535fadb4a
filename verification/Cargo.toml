[package]
name = "urouter"
version = "0.1.0"
edition = "2021"
publish = false

[dependencies]
clap = { version = "4", features = ["derive"] }
once_cell = "1"
regex = "1"
rocket = "0.5"
serde = { version = "1", features = ["derive"] }
serde_json = "1"
ureq = "2"
url-escape = "0.1"
users = "0.11"
