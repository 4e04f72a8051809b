[package]
name = "screenlapse"
version = "0.1.0"
edition = "2021"
publish = false

[dependencies]
repng = "*"
chrono = "*"
clap = { version = "*", features = ["derive"] }
scrap = "*"
image = "*"
log = "*"
env_logger = "*"
