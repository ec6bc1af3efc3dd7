[package]
name = "caniot_controller"
version = "0.1.0"
edition = "2021"
publish = false

[dependencies]
rand = "0.8"
chrono = "0.4"
embedded-can = "0.4"
socketcan = { version = "3", features = ["tokio"] }
tokio = { version = "1", features = ["time", "rt", "macros"] }
futures-util = "0.3"
log = "0.4"
