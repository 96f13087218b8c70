[package]
name = "zoom_audio_settings"
version = "0.1.0"
edition = "2021"
publish = false

[dependencies]
tracing = "*"
