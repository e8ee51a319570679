[package]
name = "screen_stream"
version = "0.1.0"
edition = "2021"
publish = false

[dependencies]
image = { version = "=0.25.10", default-features = false, features = ["jpeg"] }
screenshots = "=0.8.10"
tungstenite = "=0.21.0"
