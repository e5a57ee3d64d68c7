[package]
name = "hyper_error"
version = "0.1.0"
edition = "2021"
publish = false

[dependencies]
h2 = "0.4"
http = "1"
httparse = "1"
