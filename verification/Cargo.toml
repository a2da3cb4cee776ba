[package]
name = "pmem"
version = "0.1.0"
edition = "2021"
publish = false

[dependencies]
ruzstd = "*"
nix = { version = "*", features = ["kmod", "ioctl", "fs", "user", "feature"] }
clap = { version = "*", features = ["derive"] }
log = "*"
env_logger = "*"
