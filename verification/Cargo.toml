[package]
name = "prism_player"
version = "0.1.0"
edition = "2021"
publish = false

[dependencies]
flume = "*"
ringbuf = "0.2"
parking_lot = "*"
uuid = { version = "*", features = ["v4"] }
clap = { version = "*", features = ["derive"] }
ffmpeg-next = "*"
cpal = "*"
