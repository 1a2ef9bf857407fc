[package]
name = "tray_mounter"
version = "0.1.0"
edition = "2021"
publish = false

[dependencies]
byte-unit = "=4.0.19"
daemonize = "=0.5.0"
image = { version = "=0.24.9", default-features = false, features = ["png"] }
sysinfo = "=0.26.9"
tao = { version = "=0.14.0", features = ["tray"] }
