[package]
name = "webrtc_sink"
version = "0.1.0"
edition = "2021"
publish = false

[dependencies]
anyhow = "=1.0.104"
gstreamer = "0.23"
gstreamer-sdp = "0.23"
gstreamer-video = "0.23"
gstreamer-webrtc = "0.23"
tokio = { version = "=1.54.1", features = ["sync"] }
tracing = "=0.1.44"
uuid = "=1.29.0"
webrtc-sdp = "=0.3.17"
