[package]
name = "waveform_bridge"
version = "0.1.0"
edition = "2021"
publish = false

[dependencies]
atomic-queue = "=2.2.0"
basedrop = "=0.1.3"
audio-garbage-collector = "=1.2.0"
audio-processor-traits = "=4.3.0"
audio-processor-standalone = { version = "=3.5.0", default-features = false }
druid = { version = "0.8.3", default-features = false }
