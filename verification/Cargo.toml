[package]
name = "nanocluster_control"
version = "0.1.0"
edition = "2021"
publish = false

[dependencies]
anyhow = "*"
clap = { version = "*", features = ["derive"] }
confy = "*"
env_logger = "*"
log = "*"
openssh = "*"
serde = { version = "*", features = ["derive"] }
serde_derive = "*"
tokio = { version = "*", features = ["full"] }
