[package]
name = "petrovich_core"
version = "0.1.0"
edition = "2021"
publish = false

[dependencies]
petrovich = "*"
clap = { version = "4", features = ["derive"] }
