[package]
name = "drcom4scut"
version = "0.1.0"
edition = "2021"
publish = false

[dependencies]
anyhow = "1"
bytes = "1"
chrono = "0.4"
clap = { version = "4", features = ["derive"] }
config = { version = "0.14", default-features = false, features = ["yaml"] }
crossbeam-channel = "0.5"
hex = "0.4"
hostname = "0.4"
log = "0.4"
pnet = "0.35"
rand = "0.8"
windows-service = "0.7"
