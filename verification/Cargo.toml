[package]
name = "pristine"
version = "0.2.0"
edition = "2021"
publish = false

[dependencies]
image = { version = "0.23", default-features = false, features = ["png"] }
clap = "2"
glib = "0.10"
gstreamer = "0.16"
gstreamer-video = "0.16"
parking_lot = "0.11"
serde = { version = "1", features = ["derive"] }
serde_json = "1"
