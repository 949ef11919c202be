[package]
name = "iroh_rtp"
version = "0.1.0"
edition = "2021"
publish = false

[dependencies]
iroh-base = { version = "0.34", features = ["key"] }
rtp = "0.12"
webrtc-util = { version = "0.10", default-features = false, features = ["marshal"] }
rand = "0.8"
bytes = "1"
futures = "0.3"
async-channel = "2"
anyhow = "1"
thiserror = "2"
tokio = { version = "1", features = ["rt-multi-thread", "time", "macros"] }
tracing = "0.1"
tracing-subscriber = "0.3"
gstreamer = "0.23"
gstreamer-base = "0.23"
