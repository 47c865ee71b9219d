[package]
name = "worker_channel"
version = "0.1.0"
edition = "2021"
publish = false

[dependencies]
async-channel = "=2.5.0"
async-executor = "=1.14.0"
async-fs = "=2.2.0"
async-io = "=2.6.0"
async-mutex = "=1.4.1"
async-oneshot = "=0.5.9"
async-process = "=2.5.0"
async-trait = "=0.1.92"
bytes = "=1.12.1"
event-listener-primitives = "=2.0.2"
futures-lite = "=2.6.1"
log = "=0.4.34"
nix = { version = "=0.31.3", features = ["fs"] }
serde = { version = "=1.0.229", features = ["derive"] }
serde_json = "=1.0.151"
