[package]
name = "teleop"
version = "0.1.0"
edition = "2021"
publish = false

[dependencies]
sysinfo = "*"
nix = { version = "*", features = ["signal"] }
smol = "*"
futures = "*"
async-io = "*"
async-signal = "*"
async-stream = "*"
inotify = "*"
capnp = "*"
capnp-rpc = "*"
