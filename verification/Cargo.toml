[package]
name = "maplibre_native"
version = "0.1.0"
edition = "2021"
publish = false

[dependencies]
cxx = "1"
tokio = { version = "1", features = ["fs", "rt", "rt-multi-thread", "time"] }
