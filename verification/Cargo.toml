[package]
name = "media_mangler"
version = "0.1.0"
edition = "2021"
publish = false

[dependencies]
fastrand = "2"
shlex = "1"
wait-timeout = "0.2"
