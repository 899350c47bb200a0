[package]
name = "abe_frontend"
version = "0.1.0"
edition = "2021"
publish = false

[dependencies]
url = "2"
rust_decimal = "1"
uuid = { version = "1", features = ["v4"] }
chrono = "0.4"
