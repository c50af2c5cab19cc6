[package]
name = "waterman-bridge"
version = "0.1.0"
edition = "2021"
publish = false

[dependencies]
rand = "0.8"
arrow = { version = "*", default-features = false, features = ["ipc"] }
warp = "0.3"
tokio = { version = "1", features = ["macros", "rt-multi-thread", "sync", "time"] }
futures = "0.3"
clap = { version = "4", features = ["derive"] }
serde = { version = "1", features = ["derive"] }
serde_json = "1"
serde_yaml = "0.9"
log = "0.4"
pretty_env_logger = "0.5"
