[package]
name = "zt_tunnel"
version = "0.1.0"
edition = "2021"
publish = false

[dependencies]
pqcrypto = "*"
ring = "*"
prometheus = "*"
tokio = { version = "*", features = ["net", "io-util", "rt-multi-thread", "macros", "time"] }
