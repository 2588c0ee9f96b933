[package]
name = "kuasarctl"
version = "0.1.0"
edition = "2021"
publish = false

[dependencies]
anyhow = "*"
clap = { version = "*", features = ["derive"] }
env_logger = "*"
epoll = "*"
libc = "*"
log = "*"
nix = { version = "*", features = ["term", "fs"] }
scopeguard = "*"
sd-notify = "*"
signal-hook = "*"
thiserror = "*"
tokio = { version = "*", features = ["rt", "time", "macros"] }
vmm-sys-util = "*"
