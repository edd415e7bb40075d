[package]
name = "script_ui"
version = "0.1.0"
edition = "2021"
publish = false

[dependencies]
flume = "*"
iced = { version = "*", default-features = false }
notify = "*"
rhai = "*"
