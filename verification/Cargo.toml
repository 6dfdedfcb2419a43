[package]
name = "seedgen"
version = "0.1.0"
edition = "2021"
publish = false

[dependencies]
rand = "=0.9.5"
clap = { version = "=4.6.7", features = ["derive"] }
