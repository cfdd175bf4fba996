[package]
name = "botcore"
version = "0.1.0"
edition = "2021"
publish = false

[dependencies]
rand = "*"
libloading = "*"
slack = "*"
log = "*"
env_logger = "*"
