[package]
name = "inotify_toolkit"
version = "0.1.0"
edition = "2021"
publish = false

[dependencies]
notify = "*"
crossbeam-channel = "*"
