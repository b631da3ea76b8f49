[package]
name = "basic_site"
version = "0.1.0"
edition = "2021"
publish = false

[dependencies]
argon2 = { version = "=0.5.3", features = ["std"] }
uuid = { version = "=1.27.0", features = ["v4"] }
