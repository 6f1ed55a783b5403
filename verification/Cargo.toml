[package]
name = "dashcmafsink"
version = "0.1.0"
edition = "2021"
rust-version = "1.95"
publish = false

[dependencies]
sprintf = "=0.4.3"
dash-mpd = { version = "0.18", default-features = false }
quick-xml = { version = "0.37", features = ["serialize"] }
serde = "1"
gstreamer = "0.23"
gstreamer-app = "0.23"
gstreamer-base = "0.23"
env_logger = "0.11"
