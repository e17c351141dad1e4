[package]
name = "ev_mcu"
version = "0.1.0"
edition = "2021"
publish = false

[dependencies]
embedded-can = "*"
socketcan = "*"
paho-mqtt = { version = "*", default-features = false, features = ["bundled"] }
