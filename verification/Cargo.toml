[package]
name = "os_reader"
version = "0.1.0"
edition = "2021"
publish = false

[dependencies]
async-trait = "*"
frame-support = "*"
frame-system = "*"
log = "*"
parity-scale-codec = { version = "*", features = ["derive"] }
scale-info = { version = "*", features = ["derive"] }
sp-inherents = "*"
sp-runtime = "*"
sp-std = "*"
thiserror = "*"
