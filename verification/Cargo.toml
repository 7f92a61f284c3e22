[package]
name = "webserver"
version = "0.1.0"
edition = "2021"
publish = false

[dependencies]
mio = { version = "*", features = ["os-poll", "net"] }
log = "*"
env_logger = "*"
