[package]
name = "mh_vad"
version = "0.1.0"
edition = "2021"
publish = false

[dependencies]
rustfft = "=3.0.1"
portaudio = "=0.7.1"
sample = "=0.10.0"
