[package]
name = "xxmapper"
version = "0.1.0"
edition = "2021"
publish = false

[dependencies]
serde = { version = "1", features = ["derive"] }
serde_json = "1"
thiserror = "*"
nix = { version = "0.29", features = ["poll"] }
udev = "*"
uinput = "0.1"
evdev = "0.12"
