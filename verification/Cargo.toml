[package]
name = "iptv"
version = "0.1.0"
edition = "2021"
publish = false

[dependencies]
actix-web = "*"
anyhow = "*"
argh = "*"
async-stream = "*"
env_logger = "*"
futures-core = "*"
futures-util = "*"
local-ip-address = "*"
log = "*"
reqwest = { version = "*", default-features = false }
retina = "*"
rtp-rs = "*"
socket2 = { version = "*", features = ["all"] }
tokio = { version = "*", features = ["net", "sync", "rt", "macros"] }
tokio-util = { version = "*", features = ["codec", "net"] }
