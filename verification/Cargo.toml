[package]
name = "audio_decoder"
version = "0.1.0"
edition = "2021"
publish = false

[dependencies]
byte-slice-cast = "0.3"
gstreamer = "0.16"
gstreamer-app = "0.16"
gstreamer-audio = "0.16"
