[package]
name = "playback_pump"
version = "0.1.0"
edition = "2021"
publish = false

[dependencies]
simplemad = "*"
portaudio = "*"
error-chain = "*"
