[package]
name = "monoio_tcp_proxy"
version = "0.1.0"
edition = "2021"
publish = false

[dependencies]
clap = { version = "4", features = ["derive"] }
env_logger = "*"
log = "0.4"
monoio = "0.2"
nix = "0.26"
