[package]
name = "bgt"
version = "0.1.0"
edition = "2021"
publish = false

[dependencies]
anyhow = "1"
clap = { version = "4", features = ["derive"] }
daemonize = "0.5"
dirs = "*"
env_logger = "*"
flate2 = "1"
libc = "0.2"
log = "0.4"
regex = "1"
serde = { version = "1", features = ["derive"] }
serde_json = "1"
tar = "0.4"
tokio = { version = "1", features = ["macros", "rt-multi-thread", "signal", "time", "fs"] }
toml = "*"
