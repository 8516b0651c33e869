[package]
name = "rustecal_messaging"
version = "0.1.0"
edition = "2021"
publish = false

[dependencies]
rustecal-pubsub = "*"
rustecal-sys = "*"
thiserror = "*"
