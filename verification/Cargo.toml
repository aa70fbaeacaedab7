[package]
name = "tardis"
version = "0.1.0"
edition = "2021"
publish = false

[dependencies]
chrono = "*"
clap = { version = "*", features = ["derive"] }
dirs = "*"
eyre = "*"
serde_json = "*"
url = "*"
walkdir = "*"
