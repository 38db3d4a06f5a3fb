[package]
name = "graceful_shutdown"
version = "0.1.0"
edition = "2021"
publish = false

[dependencies]
actix-web = { version = "*", default-features = false }
