[package]
name = "sshfwd"
version = "0.1.0"
edition = "2021"
publish = false

[dependencies]
anyhow = "*"
clap = { version = "*", features = ["derive"] }
env_logger = "*"
futures = "*"
log = "*"
rpassword = "*"
ssh2 = "*"
tokio = { version = "*", features = ["full"] }
