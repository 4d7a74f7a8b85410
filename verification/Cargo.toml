[package]
name = "netprobe"
version = "0.1.0"
edition = "2021"
publish = false

[dependencies]
url = "2"
rustls = "0.20"
webpki-roots = "0.22"
