[package]
name = "openvmm"
version = "0.1.0"
edition = "2021"
publish = false

[dependencies]
anyhow = "1"
event-listener = "5"
fatfs = "0.3"
fscommon = "0.1"
futures = "0.3"
gptman = "1"
image = { version = "0.25", default-features = false, features = ["png"] }
parking_lot = "0.12"
slab = "0.4"
tempfile = "3"
thiserror = "2"
