[package]
name = "qemu_wrapper"
version = "0.1.0"
edition = "2021"
publish = false

[dependencies]
nix = { version = "=0.31.3", features = ["fs", "poll", "process", "signal", "term", "user"] }
signal-hook = "=0.4.6"
anyhow = "=1.0.104"
log = "=0.4.35"
qemu-plugin = "=10.1.0-v2"
