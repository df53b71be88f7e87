[package]
name = "buildme"
version = "0.1.0"
edition = "2021"
publish = false

[dependencies]
clap = { version = "4", features = ["derive"] }
colored = "2"
num_cpus = "1"
regex = "1"
serde_json = "1"
walkdir = "2"
