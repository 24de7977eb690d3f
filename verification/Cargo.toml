[package]
name = "rocket_lamb"
version = "0.1.0"
edition = "2021"
publish = false

[dependencies]
rocket = "0.4"
http = "0.1"
lambda_http = "0.1"
lambda_runtime = "0.2"
failure = "0.1"
