[package]
name = "ak500s_mac"
version = "0.1.0"
edition = "2021"
publish = false

[dependencies]
clap = { version = "=4.6.7", features = ["derive"] }
hidapi = { version = "=2.6.7", default-features = false, features = ["linux-native-basic-udev"] }
serde = { version = "=1.0.229", features = ["derive"] }
serde_json = "=1.0.154"
sysinfo = "=0.30.13"
