[package]
name = "n_audio"
version = "0.1.0"
edition = "2021"
publish = false

[dependencies]
flume = "0.11"
rand = "0.8"
symphonia = { version = "0.5", features = ["mp3", "aac", "isomp4"] }
cpal = "0.15"
rb = "0.4"
