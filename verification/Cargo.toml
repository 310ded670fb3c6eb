[package]
name = "audio_drift"
version = "0.1.0"
edition = "2021"
publish = false

[dependencies]
rb = "*"
thread-priority = "*"
rustfft = "*"
alsa = "*"
libc = "*"
