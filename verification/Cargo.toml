[package]
name = "monitor_manager"
version = "0.1.0"
edition = "2021"
publish = false

[dependencies]
serde_json = "1"
