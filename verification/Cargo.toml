[package]
name = "iris-session"
version = "0.1.0"
edition = "2021"
publish = false

[dependencies]
sp-core = "*"
sp-runtime = "*"
sp-io = "*"
sp-staking = "*"
sp-std = "*"
frame-support = "*"
frame-system = "*"
scale-info = { version = "*", features = ["derive"] }
parity-scale-codec = { version = "*", features = ["derive"] }
log = "*"
