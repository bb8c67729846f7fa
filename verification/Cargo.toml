[package]
name = "oxide_auth"
version = "0.1.0"
edition = "2021"
publish = false

[dependencies]
url = "2"
chrono = { version = "0.4", default-features = false, features = ["clock", "std"] }
