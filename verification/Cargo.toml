[package]
name = "brainwasm"
version = "0.1.0"
edition = "2021"
publish = false

[dependencies]
wabam = "*"
anyhow = "*"
clap = { version = "*", features = ["derive"] }
