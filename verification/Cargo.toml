[package]
name = "sat_helix_ide"
version = "0.1.0"
edition = "2021"
publish = false

[dependencies]
anyhow = "=1.0.104"
clap = { version = "=4.6.7", features = ["derive"] }
crossterm = "=0.29.0"
env_logger = "=0.11.11"
home = "=0.5.12"
kdl = "=4.7.1"
libc = "=0.2.191"
log = "=0.4.35"
ratatui = "=0.30.2"
serde = { version = "=1.0.229", features = ["derive"] }
serde_json = "=1.0.154"
thiserror = "=2.0.21"
tokio = { version = "=1.54.1", features = ["rt-multi-thread", "macros", "net", "io-util", "process", "sync", "time"] }
toml = "=1.1.8"
which = "=8.0.6"
