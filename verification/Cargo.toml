[package]
name = "scrubs"
version = "0.1.0"
edition = "2021"
publish = false

[dependencies]
comma = "*"
clap = { version = "4", features = ["derive"] }
