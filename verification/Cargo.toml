[package]
name = "swarm_webrtc"
version = "0.1.0"
edition = "2021"
publish = false

[dependencies]
libp2p-core = "=0.41.3"
libp2p-identity = { version = "=0.2.14", features = ["peerid"] }
multihash = "=0.13.2"
rand = "=0.8.8"
tinytemplate = "=1.2.1"
serde_json = "=1.0.154"
futures = "=0.3.34"
futures-timer = "=3.0.4"
log = "=0.4.35"
webrtc = "=0.6.0"
webrtc-data = "=0.6.0"
webrtc-ice = "=0.9.1"
