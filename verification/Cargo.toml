[package]
name = "blazed_net"
version = "0.1.0"
edition = "2021"
publish = false

[dependencies]
clap = { version = "*", features = ["derive"] }
crossbeam-channel = "*"
ctrlc = "*"
env_logger = "*"
log = "*"
parking_lot = "*"
spin_sleep = "*"
ultraviolet = "*"
