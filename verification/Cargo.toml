[package]
name = "sokudo_core"
version = "0.1.0"
edition = "2021"
publish = false

[dependencies]
glam = "0.27"
clap = { version = "4", features = ["derive"] }
