[package]
name = "token_endpoint"
version = "0.1.0"
edition = "2021"
publish = false

[dependencies]
diesel = { version = "1.4", features = ["postgres"] }
uuid = { version = "1", features = ["v4"] }
