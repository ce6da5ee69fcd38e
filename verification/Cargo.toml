[package]
name = "urbit_session"
version = "0.1.0"
edition = "2021"
publish = false

[dependencies]
json = "*"
reqwest = { version = "*", default-features = false, features = ["blocking"] }
