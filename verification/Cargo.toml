[package]
name = "naru"
version = "0.1.0"
edition = "2021"
publish = false

[dependencies]
anyhow = "1"
async-channel = "2"
calloop = "0.14"
knuffel = "3.2"
miette = "5"
regex = "1"
smithay = { version = "0.7", default-features = false, features = ["desktop", "wayland_frontend"] }
tracing = "0.1"
zbus = "5"
