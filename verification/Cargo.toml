[package]
name = "native-host"
version = "0.1.0"
edition = "2021"
publish = false

[dependencies]
ammonia = "*"
byteorder = "1"
inotify = "*"
log = "0.4"
nix = { version = "*", features = ["signal", "process"] }
scopeguard = "1"
serde_json = "1"
simplelog = "*"
tempdir = "*"
