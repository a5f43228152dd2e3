[package]
name = "capvicam"
version = "0.1.0"
edition = "2021"
publish = false

[dependencies]
clap = { version = "*", features = ["derive"] }
ctrlc = "*"
env_logger = "*"
errno = "*"
lazy_static = "*"
libc = "*"
log = "*"
tokio = { version = "*", features = ["full"] }
tokio-util = "*"
