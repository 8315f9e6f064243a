[package]
name = "mixcore"
version = "0.1.0"
edition = "2021"
publish = false

[dependencies]
cpal = "0.13"
hound = "3"
rand = "0.8"
crossbeam = "0.8"
ctrlc = "3"
color-eyre = "0.6"
tracing = "0.1"
tracing-subscriber = { version = "0.3", features = ["env-filter"] }
