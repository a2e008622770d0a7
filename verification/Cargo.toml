[package]
name = "hello_server"
version = "0.1.0"
edition = "2021"
publish = false

[dependencies]
tide = "0.16"
async-std = { version = "1", features = ["attributes"] }
