[package]
name = "daemonbit"
version = "0.1.0"
edition = "2021"
publish = false

[dependencies]
memchr = "2"
nix = { version = "0.29", features = ["fs", "user"] }
tracing = "0.1"
tracing-subscriber = { version = "0.3", default-features = false, features = ["fmt", "std"] }
parking_lot = "0.12"
const_env = "0.1"
