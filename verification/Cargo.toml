[package]
name = "frame_monitor"
version = "0.1.0"
edition = "2021"
publish = false

[dependencies]
http = "1"
hyper = "1"
pin-project-lite = "0.2"
tonic = { version = "*", default-features = false, features = ["channel"] }
tower-service = "0.3"
