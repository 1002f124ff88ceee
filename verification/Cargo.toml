[package]
name = "veil_server"
version = "0.1.0"
edition = "2021"
publish = false

[dependencies]
spacetimedb = "1"
log = "=0.4.35"
nalgebra = "=0.34.2"
rapier3d = "=0.31.0"
num-traits = "=0.2.19"
