[package]
name = "abot"
version = "0.1.0"
edition = "2021"
publish = false

[dependencies]
rand = "*"
md5 = "*"
chrono = { version = "*", default-features = false, features = ["clock", "std"] }
