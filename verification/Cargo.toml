[package]
name = "mooshroom"
version = "0.1.0"
edition = "2021"
publish = false

[dependencies]
flate2 = "*"
cesu8 = "*"
serde = { version = "*", features = ["derive"] }
serde_json = "*"
uuid = "*"
