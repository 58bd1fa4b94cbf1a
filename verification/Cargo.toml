[package]
name = "vc_server"
version = "0.1.0"
edition = "2021"
publish = false

[dependencies]
bitflags = { version = "2", features = ["serde"] }
chrono = { version = "=0.4.45", default-features = false, features = ["clock", "std", "serde"] }
hex = "=0.4.3"
image = { version = "=0.25.10", default-features = false }
rand = "=0.8.8"
regex = "=1.13.1"
serde = { version = "=1.0.229", features = ["derive"] }
serde_json = "=1.0.154"
sha2 = "=0.10.9"
unicode-segmentation = "=1.13.3"
uuid = { version = "=1.29.0", features = ["v4", "serde"] }
validator = "=0.21.0"
