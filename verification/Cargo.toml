[package]
name = "fallsim"
version = "0.1.0"
edition = "2021"
publish = false

[dependencies]
rand = "0.8"
actix-web = "4"
actix-cors = "0.7"
tokio = { version = "1", features = ["sync"] }
