[package]
name = "musium"
version = "0.1.0"
edition = "2021"
publish = false

[dependencies]
chrono = { version = "0.4", default-features = false, features = ["std"] }
sqlite = "0.26"
sqlite3-sys = "0.13"
