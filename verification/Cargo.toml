[package]
name = "scoreline_monitor"
version = "0.1.0"
edition = "2021"
publish = false

[dependencies]
time = "0.1"
rustc-serialize = "0.3"
nickel = "0.11"
