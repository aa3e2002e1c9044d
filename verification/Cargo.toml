[package]
name = "ebpf_congestion_signals"
version = "0.1.0"
edition = "2021"
publish = false

[dependencies]
anyhow = "1"
aya = { version = "*", features = ["async_tokio"] }
bytes = "1"
env_logger = "*"
log = "0.4"
tokio = { version = "1", features = ["rt", "rt-multi-thread", "macros", "time"] }
