[package]
name = "petompp_web_api"
version = "0.1.0"
edition = "2021"
publish = false

[dependencies]
jwt = "0.16"
hmac = "0.12"
sha2 = "0.10"
chrono = "0.4"
urandom = "*"
