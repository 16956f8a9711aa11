[package]
name = "sev_step_lib"
version = "0.1.0"
edition = "2021"
publish = false

[dependencies]
anyhow = "1"
bincode = "1.3"
crossbeam = "0.8"
ctrlc = "3"
env_logger = "0.10"
log = "0.4"
nix = { version = "0.26", features = ["ioctl", "sched"] }
serde = { version = "1", features = ["derive"] }
thiserror = "1"
toml = "0.7"
