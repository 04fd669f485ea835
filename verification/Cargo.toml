[package]
name = "nuts_tool"
version = "0.1.0"
edition = "2021"
publish = false

[dependencies]
home = "*"
anyhow = "*"
clap = { version = "*", features = ["derive"] }
env_logger = "*"
log = "*"
nuts-container = "*"
nuts-directory = "*"
rpassword = "*"
