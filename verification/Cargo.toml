[package]
name = "hashpipe"
version = "0.1.0"
edition = "2021"
publish = false

[dependencies]
irc = { version = "*", default-features = false }
tokio = { version = "*", features = ["rt-multi-thread", "macros", "sync", "signal", "io-std", "io-util", "time"] }
futures = "*"
clap = "*"
env_logger = "*"
log = "*"
