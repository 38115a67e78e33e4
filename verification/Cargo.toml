[package]
name = "cache_extractor"
version = "0.1.0"
edition = "2021"
publish = false

[dependencies]
whoami = "1"
fluent-bundle = "0.15"
filetime = "0.2"
tempfile = "3"
lazy_static = "1"
native-dialog = "0.7"
clap = { version = "4", features = ["derive"] }
egui = "*"
