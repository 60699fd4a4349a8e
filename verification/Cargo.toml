[package]
name = "wlmouse"
version = "0.1.0"
edition = "2021"
publish = false

[dependencies]
hidapi = { version = "*", default-features = false, features = ["linux-native-basic-udev"] }
config = "*"
