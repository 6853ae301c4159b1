[package]
name = "file_crypt"
version = "0.1.0"
edition = "2021"
publish = false

[dependencies]
clap = { version = "4", features = ["derive"] }
hex = "0.4"
ring = "0.17"
