[package]
name = "web_spec"
version = "0.1.0"
edition = "2021"
publish = false

[dependencies]
regex = "*"
chrono = "*"
html2md = "*"
num_cpus = "*"
serde = { version = "*", features = ["derive"] }
serde_json = "*"
serde_yaml = "*"
walkdir = "*"
rayon = "*"
clap = { version = "*", features = ["derive"] }
