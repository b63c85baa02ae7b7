[package]
name = "headsup_chat"
version = "0.1.0"
edition = "2021"
publish = false

[dependencies]
chrono = "*"
url = "*"
ws = "*"
termion = "*"
clap = "*"
env_logger = "*"

[dev-dependencies]
bincode = "1"
