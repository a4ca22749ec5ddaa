[package]
name = "somoy"
version = "0.1.0"
edition = "2021"
publish = false

[dependencies]
chrono = "=0.4.45"
kamadak-exif = "=0.6.1"
