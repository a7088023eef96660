[package]
name = "warp_oss_shims"
version = "0.1.0"
edition = "2021"
publish = false

[dependencies]
regex = "=1.13.1"
uuid = { version = "=1.29.1", features = ["v4"] }
instant = "=0.1.13"
dirs = "=5.0.1"
serde = { version = "=1.0.229", features = ["derive"] }
serde_json = "=1.0.154"
vec1 = "1"
async-fs = "2"
