[package]
name = "startprox"
version = "0.1.0"
edition = "2021"
publish = false

[dependencies]
owo-colors = "*"
cliclack = "*"
config = { version = "*", default-features = false, features = ["yaml"] }
serde = { version = "*", features = ["derive"] }
