[package]
name = "doge_code"
version = "0.1.0"
edition = "2021"
publish = false

[dependencies]
regex = "=1.13.1"
fastrand = "=2.5.0"
unicode-segmentation = "=1.13.3"
unicode-width = "=0.2.3"
serde = { version = "=1.0.229", features = ["derive"] }
serde_json = "=1.0.154"
clap = { version = "=4.6.7", features = ["derive"] }
anyhow = "=1.0.104"
diffy = "0.4"
rand = "0.8"
chrono = "0.4"
serde_yaml = "0.9"
libc = "0.2"
dotenvy = "0.15"
