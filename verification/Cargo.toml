[package]
name = "sahara"
version = "0.1.0"
edition = "2021"
publish = false

[dependencies]
async-io = "2"
clap = { version = "4", features = ["derive"] }
clap-num = "1"
env_logger = "0.11"
futures-lite = "2"
log = "0.4"
nusb = "0.1"
