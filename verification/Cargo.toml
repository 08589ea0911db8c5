[package]
name = "gateway"
version = "0.1.0"
edition = "2021"
publish = false

[dependencies]
async-trait = "0.1"
http = "1"
pingora = { version = "*", features = ["lb"] }
pingora-core = "*"
pingora-http = "*"
